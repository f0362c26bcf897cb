use vstd::prelude::*;

verus! {

/// Where the accept loop stands.
#[derive(PartialEq, Eq, Structural, Clone, Copy, Debug)]
pub enum AcceptState {
    /// The loop is racing `accept()` against the cancellation signal.
    Accepting,
    /// The loop has exited; no new local connections are admitted.
    Stopped,
}

/// The outcome of one race of `accept()` against the cancellation signal.
#[derive(PartialEq, Eq, Structural, Clone, Copy, Debug)]
pub enum AcceptEvent {
    /// A local client connection was accepted.
    Accepted,
    /// The listener reported a hard error.
    AcceptError,
    /// The cancellation signal won the race.
    Cancelled,
}

/// What the accept loop does next.
#[derive(PartialEq, Eq, Structural, Clone, Copy, Debug)]
pub enum AcceptAction {
    /// Spawn an independent bridge task for the accepted connection
    /// (fire and forget) and race the next `accept()`.
    SpawnBridge,
    /// Exit the loop.  Bridges already running are unaffected and continue
    /// until their own completion or cancellation.
    StopAccepting,
}

/// The accept loop as a transition function: each accepted connection gets
/// its own bridge task and the loop goes straight back to accepting; a hard
/// listener error or the cancellation signal stops the loop, and a stopped
/// loop never admits another connection.
pub open spec fn accept_next(s: AcceptState, e: AcceptEvent) -> (AcceptState, AcceptAction) {
    match s {
        AcceptState::Accepting => {
            if e is Accepted {
                (AcceptState::Accepting, AcceptAction::SpawnBridge)
            } else {
                (AcceptState::Stopped, AcceptAction::StopAccepting)
            }
        },
        AcceptState::Stopped => (AcceptState::Stopped, AcceptAction::StopAccepting),
    }
}

/// Take one accept-loop step.
pub fn accept_step(state: AcceptState, event: AcceptEvent) -> (r: (AcceptState, AcceptAction))
    ensures
        r == accept_next(state, event),
{
    match state {
        AcceptState::Accepting => {
            if matches!(event, AcceptEvent::Accepted) {
                (AcceptState::Accepting, AcceptAction::SpawnBridge)
            } else {
                (AcceptState::Stopped, AcceptAction::StopAccepting)
            }
        },
        AcceptState::Stopped => (AcceptState::Stopped, AcceptAction::StopAccepting),
    }
}

/// Cancellation stops the listener: once the signal wins the race the loop
/// stops, and from then on no event ever spawns another bridge.
pub proof fn lemma_cancelled_listener_stops(e: AcceptEvent)
    ensures
        accept_next(AcceptState::Accepting, AcceptEvent::Cancelled)
            == (AcceptState::Stopped, AcceptAction::StopAccepting),
        accept_next(AcceptState::Stopped, e).1 != AcceptAction::SpawnBridge,
{
}

/// A bridge is spawned only for an accepted connection, and only while the
/// loop is still accepting.
pub proof fn lemma_bridge_only_for_accepted(s: AcceptState, e: AcceptEvent)
    requires
        accept_next(s, e).1 == AcceptAction::SpawnBridge,
    ensures
        s == AcceptState::Accepting,
        e == AcceptEvent::Accepted,
{
}

} // verus!
