use vstd::prelude::*;
use crate::errors::LogicError;

verus! {

/// Where one bridge stands inside its strict request/response relay loop.
#[derive(PartialEq, Eq, Structural, Clone, Copy, Debug)]
pub enum BridgeState {
    /// Waiting for the next request from the local stream.
    AwaitingRequest,
    /// The request is being written and flushed to the forwarding channel.
    SendingRequest,
    /// Waiting (by polling) for the response from the forwarding channel.
    AwaitingResponse,
    /// The response is being written and flushed to the local stream.
    SendingResponse,
    /// The bridge is done; no further relay work happens.
    Finished,
}

/// The outcome of the outside operation a bridge last asked for.
#[derive(Debug)]
pub enum BridgeEvent {
    /// A whole request was assembled from the local stream; empty means the
    /// client closed its end.
    LocalMessage(Vec<u8>),
    /// A whole response was assembled from the channel; empty means the
    /// remote side closed the channel.
    ChannelMessage(Vec<u8>),
    /// The pending write-and-flush succeeded.
    WriteOk,
    /// The pending write or its flush failed.
    WriteFailed,
    /// The tunnel's cancellation signal fired while the operation was
    /// awaited; it wins the race whatever the operation was.
    Cancelled,
}

/// What the bridge asks its runner to do next.
#[derive(Debug)]
pub enum BridgeAction {
    /// Await the next request on the local stream, in `BUFFER_SIZE` chunks.
    ReadLocal,
    /// Write these bytes to the forwarding channel, then flush.
    WriteChannel(Vec<u8>),
    /// Poll the forwarding channel for the response, in `BUFFER_SIZE` chunks
    /// with a short pause between polls.
    ReadChannel,
    /// Write these bytes back to the local stream, then flush.
    WriteLocal(Vec<u8>),
    /// Close the forwarding channel (best effort) and end the task.
    CloseChannel,
    /// End the task without touching the channel.
    Exit,
}

/// Pause between two polls of the forwarding channel while a response is
/// awaited, in milliseconds: response reads are blocking, and rate-limiting
/// them to roughly a hundred polls per second avoids a busy loop.
pub const POLL_INTERVAL_MS: u64 = 10;

/// Which events can answer a bridge that stands in `s`.  Cancellation can
/// answer any await; `Finished` awaits nothing.
pub open spec fn bridge_event_expected(s: BridgeState, e: BridgeEvent) -> bool {
    match s {
        BridgeState::AwaitingRequest => e matches BridgeEvent::LocalMessage(_) || e is Cancelled,
        BridgeState::SendingRequest => e is WriteOk || e is WriteFailed || e is Cancelled,
        BridgeState::AwaitingResponse => e matches BridgeEvent::ChannelMessage(_) || e is Cancelled,
        BridgeState::SendingResponse => e is WriteOk || e is WriteFailed || e is Cancelled,
        BridgeState::Finished => false,
    }
}

/// The relay loop as a transition function: given where the bridge stands and
/// what the awaited operation produced, the next state and the next outside
/// action.  A zero-length read on either side, and any write or flush error,
/// ends the bridge with a best-effort channel close; cancellation ends it at
/// once.
pub open spec fn bridge_next(s: BridgeState, e: BridgeEvent) -> (BridgeState, BridgeAction) {
    match e {
        BridgeEvent::Cancelled => (BridgeState::Finished, BridgeAction::Exit),
        BridgeEvent::LocalMessage(m) => {
            if m@.len() == 0 {
                (BridgeState::Finished, BridgeAction::CloseChannel)
            } else {
                (BridgeState::SendingRequest, BridgeAction::WriteChannel(m))
            }
        },
        BridgeEvent::ChannelMessage(m) => {
            if m@.len() == 0 {
                (BridgeState::Finished, BridgeAction::CloseChannel)
            } else {
                (BridgeState::SendingResponse, BridgeAction::WriteLocal(m))
            }
        },
        BridgeEvent::WriteOk => {
            if s is SendingRequest {
                (BridgeState::AwaitingResponse, BridgeAction::ReadChannel)
            } else {
                (BridgeState::AwaitingRequest, BridgeAction::ReadLocal)
            }
        },
        BridgeEvent::WriteFailed => (BridgeState::Finished, BridgeAction::CloseChannel),
    }
}

/// Open the forwarding channel for one freshly accepted connection.  Failure
/// is an error scoped to this one connection: the listener and every sibling
/// bridge go on unaffected.
pub fn bridge_open(channel_ok: bool) -> (r: Result<(BridgeState, BridgeAction), LogicError>)
    ensures
        channel_ok ==> r == Ok::<_, LogicError>((BridgeState::AwaitingRequest, BridgeAction::ReadLocal)),
        !channel_ok ==> r == Err::<(BridgeState, BridgeAction), _>(LogicError::ChannelOpenFailure),
{
    if channel_ok {
        Ok((BridgeState::AwaitingRequest, BridgeAction::ReadLocal))
    } else {
        Err(LogicError::ChannelOpenFailure)
    }
}

/// Take one relay step.
pub fn bridge_step(state: BridgeState, event: BridgeEvent) -> (r: (BridgeState, BridgeAction))
    requires
        bridge_event_expected(state, event),
    ensures
        r == bridge_next(state, event),
{
    match event {
        BridgeEvent::Cancelled => (BridgeState::Finished, BridgeAction::Exit),
        BridgeEvent::LocalMessage(m) => {
            if m.len() == 0 {
                (BridgeState::Finished, BridgeAction::CloseChannel)
            } else {
                (BridgeState::SendingRequest, BridgeAction::WriteChannel(m))
            }
        },
        BridgeEvent::ChannelMessage(m) => {
            if m.len() == 0 {
                (BridgeState::Finished, BridgeAction::CloseChannel)
            } else {
                (BridgeState::SendingResponse, BridgeAction::WriteLocal(m))
            }
        },
        BridgeEvent::WriteOk => {
            if matches!(state, BridgeState::SendingRequest) {
                (BridgeState::AwaitingResponse, BridgeAction::ReadChannel)
            } else {
                (BridgeState::AwaitingRequest, BridgeAction::ReadLocal)
            }
        },
        BridgeEvent::WriteFailed => (BridgeState::Finished, BridgeAction::CloseChannel),
    }
}

/// Round trip: a nonempty request is forwarded to the channel exactly as the
/// client sent it, and when the forwarded service echoes it back, exactly the
/// same bytes are written back to the client, once, after which the bridge
/// awaits the next request.
pub proof fn lemma_round_trip(p: Vec<u8>)
    requires
        p@.len() > 0,
    ensures
        bridge_next(BridgeState::AwaitingRequest, BridgeEvent::LocalMessage(p))
            == (BridgeState::SendingRequest, BridgeAction::WriteChannel(p)),
        bridge_next(BridgeState::SendingRequest, BridgeEvent::WriteOk)
            == (BridgeState::AwaitingResponse, BridgeAction::ReadChannel),
        bridge_next(BridgeState::AwaitingResponse, BridgeEvent::ChannelMessage(p))
            == (BridgeState::SendingResponse, BridgeAction::WriteLocal(p)),
        bridge_next(BridgeState::SendingResponse, BridgeEvent::WriteOk)
            == (BridgeState::AwaitingRequest, BridgeAction::ReadLocal),
{
}

/// Cancellation is prompt: whatever a bridge was doing, the cancellation
/// event finishes it in that very step, with no further channel work.
pub proof fn lemma_cancellation_prompt(s: BridgeState)
    ensures
        bridge_next(s, BridgeEvent::Cancelled) == (BridgeState::Finished, BridgeAction::Exit),
{
}

/// The relay is strict half-duplex: each kind of work is asked for from
/// exactly one state, so within one bridge a request write is always followed
/// by a response read, a response write by the next request read, and reads
/// and writes of the two directions never run concurrently.
pub proof fn lemma_strict_alternation(s: BridgeState, e: BridgeEvent)
    requires
        bridge_event_expected(s, e),
    ensures
        bridge_next(s, e).1 is WriteChannel ==> s is AwaitingRequest
            && bridge_next(s, e).0 is SendingRequest,
        bridge_next(s, e).1 is ReadChannel ==> s is SendingRequest
            && bridge_next(s, e).0 is AwaitingResponse,
        bridge_next(s, e).1 is WriteLocal ==> s is AwaitingResponse
            && bridge_next(s, e).0 is SendingResponse,
        bridge_next(s, e).1 is ReadLocal ==> s is SendingResponse
            && bridge_next(s, e).0 is AwaitingRequest,
{
}

/// Isolation: the only bytes a bridge ever writes back to its local client
/// are bytes its own channel produced, so concurrent connections cannot see
/// each other's traffic.
pub proof fn lemma_bridge_isolation(s: BridgeState, e: BridgeEvent, w: Vec<u8>)
    requires
        bridge_next(s, e).1 == BridgeAction::WriteLocal(w),
    ensures
        e == BridgeEvent::ChannelMessage(w),
        w@.len() > 0,
{
}

/// The connection-scoped error behind a terminating relay event, where the
/// taxonomy names one: a failed write or flush toward the local client is a
/// `LocalStreamFailure`.  Empty reads (either peer closed in an orderly way)
/// and cancellation are terminations, not errors, and never get one.
pub open spec fn spec_bridge_failure(s: BridgeState, e: BridgeEvent) -> Option<LogicError> {
    if s is SendingResponse && e is WriteFailed {
        Option::Some(LogicError::LocalStreamFailure)
    } else {
        Option::None
    }
}

/// Classify a terminating relay event for logging.  Per-connection errors are
/// only ever logged: they are never escalated past the one bridge they ended.
pub fn bridge_failure(state: BridgeState, event: &BridgeEvent) -> (r: Option<LogicError>)
    ensures
        r == spec_bridge_failure(state, *event),
{
    if matches!(state, BridgeState::SendingResponse) && matches!(event, BridgeEvent::WriteFailed) {
        Some(LogicError::LocalStreamFailure)
    } else {
        None
    }
}

/// Whether each event of `events` fits the state the bridge has reached by
/// the time that event arrives.
pub open spec fn bridge_run_expected(s: BridgeState, events: Seq<BridgeEvent>) -> bool
    decreases events.len(),
{
    events.len() > 0 ==> {
        &&& bridge_event_expected(s, events[0])
        &&& bridge_run_expected(bridge_next(s, events[0]).0, events.skip(1))
    }
}

/// The payloads a bridge starting in `s` writes back to its local client over
/// a whole run, in order.
pub open spec fn local_writes(s: BridgeState, events: Seq<BridgeEvent>) -> Seq<Seq<u8>>
    decreases events.len(),
{
    if events.len() == 0 {
        Seq::empty()
    } else {
        let step = bridge_next(s, events[0]);
        let here = match step.1 {
            BridgeAction::WriteLocal(w) => seq![w@],
            _ => Seq::empty(),
        };
        here + local_writes(step.0, events.skip(1))
    }
}

/// The nonempty responses a run's channel produced, in order.
pub open spec fn channel_responses(events: Seq<BridgeEvent>) -> Seq<Seq<u8>>
    decreases events.len(),
{
    if events.len() == 0 {
        Seq::empty()
    } else {
        let here = match events[0] {
            BridgeEvent::ChannelMessage(m) => if m@.len() > 0 {
                seq![m@]
            } else {
                Seq::<Seq<u8>>::empty()
            },
            _ => Seq::empty(),
        };
        here + channel_responses(events.skip(1))
    }
}

/// Over any whole run, the bytes a bridge writes back to its local client are
/// exactly the nonempty responses its own channel produced, in order: nothing
/// dropped, nothing duplicated, nothing reordered, and nothing taken from any
/// other connection.
pub proof fn lemma_run_isolation(s: BridgeState, events: Seq<BridgeEvent>)
    requires
        bridge_run_expected(s, events),
    ensures
        local_writes(s, events) == channel_responses(events),
    decreases events.len(),
{
    if events.len() > 0 {
        lemma_run_isolation(bridge_next(s, events[0]).0, events.skip(1));
    }
}

} // verus!
