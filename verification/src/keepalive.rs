//! The keep-alive scheduler.
//!
//! The scheduler is a pure state machine driven by elapsed idle intervals:
//! the surrounding runtime arms a timer for `settings.interval` and calls
//! [`KeepAlive::tick`] each time it fires with no traffic in between; any
//! received transport message resets the machine through [`KeepAlive::kick`].
//! With no interval configured the timer is never armed, so the machine is
//! never ticked and no ping is ever requested.

use vstd::prelude::*;

verus! {

/// Configuration of the keep-alive scheduler.
#[derive(Clone, Copy, Debug)]
pub struct KeepAliveSettings {
    /// How often to send a keep alive ping, in milliseconds; `None` disables
    /// keep-alive entirely.
    pub interval: Option<u64>,
    /// How many pings may go unanswered before the connection is considered
    /// dropped.
    pub retries: usize,
}

impl Default for KeepAliveSettings {
    /// Keep-alive disabled; three retries once an interval is configured.
    fn default() -> (r: Self)
        ensures
            r.interval is None,
            r.retries == 3,
    {
        KeepAliveSettings { interval: None, retries: 3 }
    }
}

/// The phase of the keep-alive machine.
pub enum KeepAliveState {
    /// Traffic was seen within the last interval.
    Running,
    /// One interval elapsed without traffic; a ping has been requested.
    StartedKeepAlive,
    /// The ping went unanswered for `failure_count` further intervals.
    TimingOut {
        /// How many consecutive intervals have elapsed since the first
        /// unanswered ping.
        failure_count: usize,
    },
}

impl KeepAliveState {
    /// How many consecutive keep-alive intervals have gone unanswered.
    pub fn failure_count(&self) -> (r: usize)
        ensures
            r == spec_failure_count(*self),
    {
        match self {
            KeepAliveState::Running | KeepAliveState::StartedKeepAlive => 0,
            KeepAliveState::TimingOut { failure_count } => *failure_count,
        }
    }
}

/// The failure count of a keep-alive phase.
pub open spec fn spec_failure_count(s: KeepAliveState) -> usize {
    match s {
        KeepAliveState::Running | KeepAliveState::StartedKeepAlive => 0,
        KeepAliveState::TimingOut { failure_count } => failure_count,
    }
}

/// What one elapsed idle interval does to the phase.  The failure count
/// saturates at the machine limit, far beyond any configurable retry bound.
pub open spec fn spec_tick_state(s: KeepAliveState) -> KeepAliveState {
    match s {
        KeepAliveState::Running => KeepAliveState::StartedKeepAlive,
        KeepAliveState::StartedKeepAlive => KeepAliveState::TimingOut { failure_count: 1 },
        KeepAliveState::TimingOut { failure_count } => KeepAliveState::TimingOut {
            failure_count: if failure_count < usize::MAX { (failure_count + 1) as usize } else { failure_count },
        },
    }
}

/// What the scheduler asks of the actor after one elapsed idle interval.
pub enum KeepAliveSignal {
    /// Send a keep-alive ping.
    Ping,
    /// Too many pings went unanswered: the connection is considered dropped.
    Timeout,
}

/// The signal emitted on entering phase `s`: a timeout once the failure count
/// exceeds the retry budget, a ping request otherwise.
pub open spec fn spec_signal(settings: KeepAliveSettings, s: KeepAliveState) -> KeepAliveSignal {
    if spec_failure_count(s) > settings.retries {
        KeepAliveSignal::Timeout
    } else {
        KeepAliveSignal::Ping
    }
}

/// The running keep-alive machine.
pub struct KeepAlive {
    /// The configured interval and retry budget.
    pub settings: KeepAliveSettings,
    /// The current phase.
    pub state: KeepAliveState,
}

impl KeepAlive {
    /// A fresh machine in the `Running` phase.
    pub fn new(settings: KeepAliveSettings) -> (r: KeepAlive)
        ensures
            r.settings == settings,
            r.state is Running,
    {
        KeepAlive { settings, state: KeepAliveState::Running }
    }

    /// The configured interval, in milliseconds.
    pub fn interval(&self) -> (r: Option<u64>)
        ensures
            r == self.settings.interval,
    {
        self.settings.interval
    }

    /// Notifies the machine of other traffic: the idle clock restarts.
    pub fn kick(&mut self)
        ensures
            final(self).settings == old(self).settings,
            final(self).state is Running,
    {
        self.state = KeepAliveState::Running;
    }

    /// Notifies the machine of a received pong: the idle clock restarts.
    pub fn received_pong(&mut self)
        ensures
            final(self).settings == old(self).settings,
            final(self).state is Running,
    {
        self.state = KeepAliveState::Running;
    }

    /// One interval elapsed with no traffic.  Only called when an interval is
    /// configured: with keep-alive disabled the timer never fires.
    pub fn tick(&mut self) -> (r: KeepAliveSignal)
        requires
            old(self).settings.interval is Some,
        ensures
            final(self).settings == old(self).settings,
            final(self).state == spec_tick_state(old(self).state),
            r == spec_signal(old(self).settings, final(self).state),
    {
        let next = match &self.state {
            KeepAliveState::Running => KeepAliveState::StartedKeepAlive,
            KeepAliveState::StartedKeepAlive => KeepAliveState::TimingOut { failure_count: 1 },
            KeepAliveState::TimingOut { failure_count } => KeepAliveState::TimingOut {
                failure_count: if *failure_count < usize::MAX {
                    *failure_count + 1
                } else {
                    *failure_count
                },
            },
        };
        self.state = next;
        if self.state.failure_count() > self.settings.retries {
            KeepAliveSignal::Timeout
        } else {
            KeepAliveSignal::Ping
        }
    }
}

// ---------------------------------------------------------------------------
// The scheduler as a sequence of signals
// ---------------------------------------------------------------------------

/// The phase reached after `k` elapsed idle intervals from `s0`.
pub open spec fn spec_state_after(s0: KeepAliveState, k: nat) -> KeepAliveState
    decreases k,
{
    if k == 0 {
        s0
    } else {
        spec_tick_state(spec_state_after(s0, (k - 1) as nat))
    }
}

/// The signals a scheduler starting in the `Running` phase emits over its
/// first `n` elapsed idle intervals.  A scheduler whose settings carry no
/// interval never arms its timer, so no interval ever elapses and it emits
/// nothing.
pub open spec fn spec_scheduler_signals(settings: KeepAliveSettings, n: nat) -> Seq<KeepAliveSignal> {
    if settings.interval is None {
        Seq::empty()
    } else {
        Seq::new(n, |i: int| spec_signal(settings, spec_state_after(KeepAliveState::Running, (i + 1) as nat)))
    }
}

/// With keep-alive disabled, no signal — in particular no ping — is ever
/// emitted, however long the connection stays idle.
pub proof fn lemma_keepalive_disabled_is_silent(settings: KeepAliveSettings, n: nat)
    requires
        settings.interval is None,
    ensures
        spec_scheduler_signals(settings, n) == Seq::<KeepAliveSignal>::empty(),
{
}

/// With keep-alive enabled and a retry budget of zero, the first unanswered
/// ping already times the connection out: the scheduler asks for one ping and
/// then reports a timeout.
pub proof fn lemma_keepalive_zero_retries(settings: KeepAliveSettings)
    requires
        settings.interval is Some,
        settings.retries == 0,
    ensures
        spec_scheduler_signals(settings, 2) =~= seq![KeepAliveSignal::Ping, KeepAliveSignal::Timeout],
{
    assert(spec_state_after(KeepAliveState::Running, 0) == KeepAliveState::Running);
    assert(spec_state_after(KeepAliveState::Running, 1) == KeepAliveState::StartedKeepAlive);
    assert(spec_state_after(KeepAliveState::Running, 2) == KeepAliveState::TimingOut { failure_count: 1 });
}

/// With keep-alive enabled, the scheduler asks for a ping on each of the
/// first `retries + 1` idle intervals and reports a timeout on the next one:
/// the connection survives exactly `retries` unanswered pings.
pub proof fn lemma_keepalive_timeout_bound(settings: KeepAliveSettings, k: nat)
    requires
        settings.interval is Some,
        settings.retries < usize::MAX - 1,
        1 <= k <= settings.retries + 2,
    ensures
        k <= settings.retries + 1 ==> spec_scheduler_signals(settings, k).last() == KeepAliveSignal::Ping,
        k == settings.retries + 2 ==> spec_scheduler_signals(settings, k).last() == KeepAliveSignal::Timeout,
{
    lemma_state_after_failure_count(settings, k);
}

proof fn lemma_state_after_failure_count(settings: KeepAliveSettings, k: nat)
    requires
        1 <= k,
        k <= settings.retries + 2,
        settings.retries < usize::MAX - 1,
    ensures
        k == 1 ==> spec_state_after(KeepAliveState::Running, k) == KeepAliveState::StartedKeepAlive,
        k >= 2 ==> spec_state_after(KeepAliveState::Running, k) == (KeepAliveState::TimingOut {
            failure_count: (k - 1) as usize,
        }),
    decreases k,
{
    if k == 1 {
    } else if k == 2 {
        lemma_state_after_failure_count(settings, 1);
    } else {
        lemma_state_after_failure_count(settings, (k - 1) as nat);
    }
}

} // verus!
