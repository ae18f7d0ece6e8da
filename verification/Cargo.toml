[package]
name = "graphql_ws_client"
version = "0.1.0"
edition = "2021"
publish = false

[dependencies]
serde = "1"
serde_json = "1"
async-channel = "2"
futures-lite = "2"
futures-timer = "3"
async-tungstenite = "*"
