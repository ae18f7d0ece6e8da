//! The client side: id allocation and subscribe-request building.
//!
//! A client handle owns a monotone id counter; every subscription started
//! through one client gets a fresh, never-repeated id, rendered in decimal on
//! the wire.

use vstd::prelude::*;

use crate::graphql::GraphqlOperation;
use crate::protocol::{
    dec_rep, dec_val, is_dec_string, parse_dec_u64, subscribe_message, subscribe_text, u64_to_dec,
};
use crate::Error;

verus! {

/// What one allocation does to the counter: hand out the current id and
/// advance, or refuse once the id space is exhausted.
pub open spec fn spec_allocate(next: u64) -> (u64, Option<u64>) {
    if next < u64::MAX {
        ((next + 1) as u64, Some(next))
    } else {
        (next, None)
    }
}

/// The ids handed out by `k` successive allocations starting from `next`.
pub open spec fn spec_allocated_ids(next: u64, k: nat) -> Seq<u64>
    decreases k,
{
    if k == 0 || next == u64::MAX {
        Seq::empty()
    } else {
        seq![next] + spec_allocated_ids((next + 1) as u64, (k - 1) as nat)
    }
}

proof fn lemma_allocated_ids_values(next: u64, k: nat, i: int)
    requires
        0 <= i < spec_allocated_ids(next, k).len(),
    ensures
        spec_allocated_ids(next, k)[i] == next + i,
    decreases k,
{
    if i > 0 {
        lemma_allocated_ids_values((next + 1) as u64, (k - 1) as nat, i - 1);
    }
}

/// Subscription ids never repeat within a single client: any two ids handed
/// out by one counter differ.
pub proof fn lemma_subscription_ids_never_repeat(next: u64, k: nat, i: int, j: int)
    requires
        0 <= i < j < spec_allocated_ids(next, k).len(),
    ensures
        spec_allocated_ids(next, k)[i] != spec_allocated_ids(next, k)[j],
{
    lemma_allocated_ids_values(next, k, i);
    lemma_allocated_ids_values(next, k, j);
}

/// A GraphQL-over-websocket client handle.
///
/// It allocates subscription ids and builds subscribe requests; the
/// surrounding runtime carries the requests to the connection actor over the
/// command channel.
#[derive(Debug)]
pub struct Client {
    /// The next id to hand out.  Ids start at 1: a subscription id is a
    /// non-zero unsigned integer.
    pub next_id: u64,
    /// The depth of the delivery queue created for each subscription.
    pub subscription_buffer_size: usize,
}

impl Client {
    /// A fresh client with the given per-subscription queue depth.
    pub fn new_internal(subscription_buffer_size: usize) -> (r: Client)
        ensures
            r.next_id == 1,
            r.subscription_buffer_size == subscription_buffer_size,
    {
        Client { next_id: 1, subscription_buffer_size }
    }

    /// Hands out the next subscription id, refusing once the id space is
    /// exhausted.
    pub fn allocate_id(&mut self) -> (r: Result<u64, Error>)
        ensures
            final(self).subscription_buffer_size == old(self).subscription_buffer_size,
            final(self).next_id == spec_allocate(old(self).next_id).0,
            match spec_allocate(old(self).next_id).1 {
                Some(id) => r == Ok::<u64, Error>(id),
                None => r == Err::<u64, Error>(Error::ConnectionIdsExhausted),
            },
    {
        if self.next_id < u64::MAX {
            let id = self.next_id;
            self.next_id = self.next_id + 1;
            Ok(id)
        } else {
            Err(Error::ConnectionIdsExhausted)
        }
    }

    /// Allocates an id for `op` and builds its subscribe request.  Fails with
    /// [`Error::Serializing`] when the operation cannot be serialized, and
    /// with [`Error::ConnectionIdsExhausted`] when no id is left.
    pub fn prepare_subscribe<Op: GraphqlOperation>(&mut self, op: &Op) -> (r: Result<
        (u64, String),
        Error,
    >)
        ensures
            final(self).subscription_buffer_size == old(self).subscription_buffer_size,
            final(self).next_id == spec_allocate(old(self).next_id).0,
            spec_allocate(old(self).next_id).1 is None ==> r == Err::<(u64, String), Error>(
                Error::ConnectionIdsExhausted,
            ),
            r matches Ok((id, request)) ==> {
                &&& Some(id) == spec_allocate(old(self).next_id).1
                &&& exists|p: Seq<char>| request@ == subscribe_text(id as nat, p)
            },
            r matches Err(e) ==> e is Serializing || e == Error::ConnectionIdsExhausted,
    {
        let id = match self.allocate_id() {
            Ok(id) => id,
            Err(e) => {
                return Err(e);
            },
        };
        let payload = match op.serialize_json() {
            Ok(p) => p,
            Err(e) => {
                return Err(Error::Serializing(e));
            },
        };
        let request = subscribe_message(id, payload.as_str());
        Ok((id, request))
    }
}

/// Maps a rejected send of a command to the actor: the actor has shut down,
/// so subscribing (or stopping) fails with [`Error::Send`].
pub fn command_send_failed(detail: String) -> (r: Error)
    ensures
        r == Error::Send(detail),
{
    Error::Send(detail)
}

/// An opaque identifier for a subscription: a non-zero unsigned integer,
/// rendered as its decimal string on the wire.
#[derive(Copy, Clone, Debug, PartialEq, Eq, Hash)]
pub struct SubscriptionId {
    id: u64,
}

impl SubscriptionId {
    /// The numeric value of the identifier.
    pub closed spec fn spec_id(&self) -> u64 {
        self.id
    }

    /// A valid identifier is non-zero.
    pub open spec fn wf(&self) -> bool {
        self.spec_id() != 0
    }

    /// Wraps a number, refusing zero.
    pub fn new(id: u64) -> (r: Option<SubscriptionId>)
        ensures
            r is Some <==> id != 0,
            r matches Some(s) ==> s.spec_id() == id && s.wf(),
    {
        if id == 0 {
            None
        } else {
            Some(SubscriptionId { id })
        }
    }

    /// The decimal rendering used on the wire.  Parsing it back yields the
    /// same identifier.
    pub fn to_string(self) -> (r: String)
        ensures
            r@ == dec_rep(self.spec_id() as nat),
            is_dec_string(r@) && dec_val(r@) == self.spec_id(),
    {
        proof {
            crate::protocol::lemma_dec_rep_val(self.id as nat);
        }
        u64_to_dec(self.id)
    }

    /// Parses a wire id: a non-empty digit string denoting a non-zero number
    /// that fits the id space.
    pub fn from_str(s: &str) -> (r: Option<SubscriptionId>)
        ensures
            r is Some <==> is_dec_string(s@) && dec_val(s@) <= u64::MAX && dec_val(s@) != 0,
            r matches Some(sid) ==> sid.spec_id() == dec_val(s@) && sid.wf(),
    {
        match parse_dec_u64(s) {
            Some(n) => SubscriptionId::new(n),
            None => None,
        }
    }
}

/// The older builder API: carries only the optional, already-serialized
/// `connection_init` payload.
#[derive(Debug)]
pub struct AsyncWebsocketClientBuilder {
    /// The serialized `connection_init` payload, if any.
    pub payload: Option<String>,
}

impl AsyncWebsocketClientBuilder {
    /// A builder with no payload.
    pub fn new() -> (r: AsyncWebsocketClientBuilder)
        ensures
            r.payload is None,
    {
        AsyncWebsocketClientBuilder { payload: None }
    }

    /// Sets the `connection_init` payload, already serialized as JSON.
    pub fn payload(self, payload: String) -> (r: AsyncWebsocketClientBuilder)
        ensures
            r.payload == Some(payload),
    {
        AsyncWebsocketClientBuilder { payload: Some(payload) }
    }
}

impl Default for AsyncWebsocketClientBuilder {
    /// A builder with no payload.
    fn default() -> (r: Self)
        ensures
            r.payload is None,
    {
        AsyncWebsocketClientBuilder::new()
    }
}

} // verus!
