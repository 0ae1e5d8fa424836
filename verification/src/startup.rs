//! Establishing a connection at startup: attempt, wait a fixed interval
//! after a failure, attempt again.
//!
//! The rule is a state machine. The caller performs what the state asks
//! for (an attempt to connect, a sleep) and reports what happened; the
//! machine says what comes next. The connection to the credential store
//! and the connection to the task service each run a machine of their own.

use vstd::prelude::*;

verus! {

/// When to try again, and for how long.
#[derive(Debug, Clone, Copy, PartialEq, Eq, Structural)]
pub struct RetryPolicy {
    /// The pause after a failed attempt, in milliseconds. It does not grow.
    pub interval_millis: u64,
    /// The number of failed attempts after which the machine gives up;
    /// `None` for no limit. At least one attempt is made in any case.
    pub max_attempts: Option<u64>,
}

/// Where the establishment of one connection stands.
#[derive(Debug, Clone, Copy, PartialEq, Eq, Structural)]
pub enum ConnectState {
    /// An attempt is due or under way; `failed` attempts have failed so far.
    Attempting { failed: u64 },
    /// The pause after the latest of `failed` failed attempts is due or under way.
    Waiting { failed: u64 },
    /// The connection stands.
    Connected,
    /// The limit of attempts is used up.
    GivenUp,
}

/// What the caller reports.
#[derive(Debug, Clone, Copy, PartialEq, Eq, Structural)]
pub enum ConnectEvent {
    /// The attempt brought a connection.
    Succeeded,
    /// The attempt failed.
    Failed,
    /// The pause is over.
    Waited,
}

/// What the caller is to do in a state.
#[derive(Debug, Clone, Copy, PartialEq, Eq, Structural)]
pub enum ConnectAction {
    /// Try to connect, then report `Succeeded` or `Failed`.
    Attempt,
    /// Sleep for so many milliseconds, then report `Waited`.
    Wait(u64),
    /// Go on with the connection.
    Proceed,
    /// Stop: no connection will be had.
    Abandon,
}

impl RetryPolicy {
    /// The policy of the gateway at startup: a pause of one second, no limit.
    pub fn startup() -> (policy: RetryPolicy)
        ensures
            policy == (RetryPolicy { interval_millis: 1000, max_attempts: None }),
    {
        RetryPolicy { interval_millis: 1000, max_attempts: None }
    }

    /// Whether so many failed attempts use up the limit.
    pub open spec fn exhausted_by(self, failed: u64) -> bool {
        match self.max_attempts {
            Some(limit) => failed >= limit,
            None => false,
        }
    }

    /// The state that follows `state` on `event`. An event that the state
    /// does not wait for changes nothing.
    pub open spec fn next(self, state: ConnectState, event: ConnectEvent) -> ConnectState {
        match (state, event) {
            (ConnectState::Attempting { .. }, ConnectEvent::Succeeded) => ConnectState::Connected,
            (ConnectState::Attempting { failed }, ConnectEvent::Failed) => {
                let count = if failed < u64::MAX {
                    (failed + 1) as u64
                } else {
                    failed
                };
                if self.exhausted_by(count) {
                    ConnectState::GivenUp
                } else {
                    ConnectState::Waiting { failed: count }
                }
            },
            (ConnectState::Waiting { failed }, ConnectEvent::Waited) => ConnectState::Attempting {
                failed,
            },
            _ => state,
        }
    }

    /// What a state asks of the caller.
    pub open spec fn asks(self, state: ConnectState) -> ConnectAction {
        match state {
            ConnectState::Attempting { .. } => ConnectAction::Attempt,
            ConnectState::Waiting { .. } => ConnectAction::Wait(self.interval_millis),
            ConnectState::Connected => ConnectAction::Proceed,
            ConnectState::GivenUp => ConnectAction::Abandon,
        }
    }

    /// The state after a run of events, taken in order.
    pub open spec fn run(self, state: ConnectState, events: Seq<ConnectEvent>) -> ConnectState
        decreases events.len(),
    {
        if events.len() == 0 {
            state
        } else {
            self.run(self.next(state, events[0]), events.skip(1))
        }
    }

    /// The state in which every connection starts: the first attempt is due.
    pub fn start(&self) -> (begin: (ConnectState, ConnectAction))
        ensures
            begin.0 == (ConnectState::Attempting { failed: 0 }),
            begin.1 == ConnectAction::Attempt,
            begin.1 == self.asks(begin.0),
    {
        (ConnectState::Attempting { failed: 0 }, ConnectAction::Attempt)
    }

    /// What the caller is to do in `state`.
    pub fn action(&self, state: ConnectState) -> (action: ConnectAction)
        ensures
            action == self.asks(state),
    {
        match state {
            ConnectState::Attempting { .. } => ConnectAction::Attempt,
            ConnectState::Waiting { .. } => ConnectAction::Wait(self.interval_millis),
            ConnectState::Connected => ConnectAction::Proceed,
            ConnectState::GivenUp => ConnectAction::Abandon,
        }
    }

    /// Takes one event: gives the next state and what to do in it.
    ///
    /// Without a limit the machine never gives up: after a failure it asks
    /// for the pause, after the pause for the next attempt, without end,
    /// until an attempt succeeds.
    pub fn step(&self, state: ConnectState, event: ConnectEvent) -> (after: (
        ConnectState,
        ConnectAction,
    ))
        ensures
            after.0 == self.next(state, event),
            after.1 == self.asks(after.0),
            self.max_attempts is None && state != ConnectState::GivenUp ==> after.0
                != ConnectState::GivenUp,
            state == ConnectState::Connected ==> after.0 == ConnectState::Connected,
            state == ConnectState::GivenUp ==> after.0 == ConnectState::GivenUp,
    {
        let next = match (state, event) {
            (ConnectState::Attempting { .. }, ConnectEvent::Succeeded) => ConnectState::Connected,
            (ConnectState::Attempting { failed }, ConnectEvent::Failed) => {
                let count = failed.saturating_add(1);
                let exhausted = match self.max_attempts {
                    Some(limit) => count >= limit,
                    None => false,
                };
                if exhausted {
                    ConnectState::GivenUp
                } else {
                    ConnectState::Waiting { failed: count }
                }
            },
            (ConnectState::Waiting { failed }, ConnectEvent::Waited) => ConnectState::Attempting {
                failed,
            },
            _ => state,
        };
        (next, self.action(next))
    }
}

/// Without a limit, no run of events makes the machine give up.
pub proof fn lemma_unlimited_never_gives_up(
    policy: RetryPolicy,
    state: ConnectState,
    events: Seq<ConnectEvent>,
)
    requires
        policy.max_attempts is None,
        state != ConnectState::GivenUp,
    ensures
        policy.run(state, events) != ConnectState::GivenUp,
    decreases events.len(),
{
    if events.len() > 0 {
        lemma_unlimited_never_gives_up(policy, policy.next(state, events[0]), events.skip(1));
    }
}

/// A connection, once it stands, stays: no event leads out of `Connected`.
pub proof fn lemma_connected_is_final(policy: RetryPolicy, events: Seq<ConnectEvent>)
    ensures
        policy.run(ConnectState::Connected, events) == ConnectState::Connected,
    decreases events.len(),
{
    if events.len() > 0 {
        lemma_connected_is_final(policy, events.skip(1));
    }
}

} // verus!
