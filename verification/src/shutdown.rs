//! Two-phase cluster shutdown. Phase one sends a shutdown-server request to
//! one shard, which finalizes global state; only if that call fully
//! succeeds is a plain shutdown broadcast to every shard in phase two,
//! all-or-fail aggregated like every fan-out. A failure at either phase is
//! terminal with the originating transport or application error message
//! preserved. The protocol is a state machine whose step function decides,
//! from each observed response, the next state and the next request to
//! send; the unverified driver performs the requests.

use vstd::prelude::*;

use crate::fanout::{aggregate_fanout, first_app_error_from, first_transport_error_from};
use crate::PersiaError;

verus! {

/// A response observed by the shutdown coordinator. The outer `Result` is
/// the transport outcome, the inner one the shard's own response; either
/// error carries its message.
#[derive(Debug, PartialEq, Eq)]
pub enum ShutdownEvent {
    /// The phase-one shutdown-server call returned.
    FinalizeResponse(Result<Result<(), String>, String>),
    /// The phase-two broadcast returned, one two-level outcome per shard.
    BroadcastResponse(Vec<Result<Result<(), String>, String>>),
}

/// Where the shutdown sequence stands.
#[derive(Debug, Clone, PartialEq, Eq)]
pub enum ShutdownState {
    /// Phase one is in flight: one shard was asked to finalize.
    FinalizePending,
    /// Phase one succeeded; the phase-two broadcast is in flight.
    BroadcastPending,
    /// Every shard was told to stop.
    Done,
    /// The sequence failed with this message; terminal.
    Failed(String),
}

/// What the coordinator asks the driver to do next.
#[derive(Debug, Clone, PartialEq, Eq)]
pub enum ShutdownAction {
    /// Send the shutdown-server request to one shard.
    SendFinalize,
    /// Broadcast the plain shutdown request to every shard.
    SendBroadcast,
    /// Nothing: the sequence is over.
    NoAction,
}

/// The mathematical model of a [`ShutdownState`]: messages as character
/// sequences.
pub enum SpecShutdownState {
    FinalizePending,
    BroadcastPending,
    Done,
    Failed(Seq<char>),
}

/// The mathematical model of a [`ShutdownEvent`].
pub enum SpecShutdownEvent {
    FinalizeResponse(Result<Result<(), Seq<char>>, Seq<char>>),
    BroadcastResponse(Seq<Result<Result<(), Seq<char>>, Seq<char>>>),
}

/// The model of one two-level call outcome: transport outside, the shard's
/// own response inside.
pub open spec fn call_result_view(r: Result<Result<(), String>, String>) -> Result<
    Result<(), Seq<char>>,
    Seq<char>,
> {
    match r {
        Result::Ok(inner) => Result::Ok(
            match inner {
                Result::Ok(u) => Result::Ok(()),
                Result::Err(m) => Result::Err(m@),
            },
        ),
        Result::Err(m) => Result::Err(m@),
    }
}

/// The model of a list of two-level call outcomes.
pub open spec fn call_results_view(rs: Seq<Result<Result<(), String>, String>>) -> Seq<
    Result<Result<(), Seq<char>>, Seq<char>>,
> {
    Seq::new(rs.len(), |i: int| call_result_view(rs[i]))
}

impl View for ShutdownState {
    type V = SpecShutdownState;

    open spec fn view(&self) -> SpecShutdownState {
        match self {
            ShutdownState::FinalizePending => SpecShutdownState::FinalizePending,
            ShutdownState::BroadcastPending => SpecShutdownState::BroadcastPending,
            ShutdownState::Done => SpecShutdownState::Done,
            ShutdownState::Failed(m) => SpecShutdownState::Failed(m@),
        }
    }
}

impl View for ShutdownEvent {
    type V = SpecShutdownEvent;

    open spec fn view(&self) -> SpecShutdownEvent {
        match self {
            ShutdownEvent::FinalizeResponse(r) => SpecShutdownEvent::FinalizeResponse(
                call_result_view(*r),
            ),
            ShutdownEvent::BroadcastResponse(rs) => SpecShutdownEvent::BroadcastResponse(
                call_results_view(rs@),
            ),
        }
    }
}

/// The first transport-level failure message of `rs` at or after `i`.
pub open spec fn first_transport_failure_from(
    rs: Seq<Result<Result<(), Seq<char>>, Seq<char>>>,
    i: int,
) -> Option<Seq<char>>
    decreases rs.len() - i,
{
    if i < 0 || i >= rs.len() {
        None
    } else {
        match rs[i] {
            Result::Err(m) => Some(m),
            _ => first_transport_failure_from(rs, i + 1),
        }
    }
}

/// The first application-level failure message of `rs` at or after `i`.
pub open spec fn first_app_failure_from(
    rs: Seq<Result<Result<(), Seq<char>>, Seq<char>>>,
    i: int,
) -> Option<Seq<char>>
    decreases rs.len() - i,
{
    if i < 0 || i >= rs.len() {
        None
    } else {
        match rs[i] {
            Result::Ok(inner) => match inner {
                Result::Err(m) => Some(m),
                _ => first_app_failure_from(rs, i + 1),
            },
            _ => first_app_failure_from(rs, i + 1),
        }
    }
}

/// What the phase-two broadcast ends in: the same all-or-fail aggregation
/// as every fan-out — the first transport-level failure in shard order,
/// else the first application-level failure, else success — so the
/// originating error message is preserved.
pub open spec fn broadcast_verdict(rs: Seq<Result<Result<(), Seq<char>>, Seq<char>>>) -> Result<
    (),
    Seq<char>,
> {
    if first_transport_failure_from(rs, 0) is Some {
        Result::Err(first_transport_failure_from(rs, 0).unwrap())
    } else if first_app_failure_from(rs, 0) is Some {
        Result::Err(first_app_failure_from(rs, 0).unwrap())
    } else {
        Result::Ok(())
    }
}

/// The shutdown transition function. From `FinalizePending`, a fully
/// successful finalize response starts the broadcast; any failure, at the
/// transport or at the application level, is terminal with the originating
/// message preserved. From `BroadcastPending`, the broadcast response ends
/// the sequence: failed, with the first failing call's message, if any
/// shard's call failed at either level. Terminal states absorb every event,
/// and an event that does not answer the pending phase changes nothing.
pub open spec fn spec_shutdown_step(s: SpecShutdownState, e: SpecShutdownEvent) -> (
    SpecShutdownState,
    ShutdownAction,
) {
    match s {
        SpecShutdownState::FinalizePending => match e {
            SpecShutdownEvent::FinalizeResponse(r) => match r {
                Result::Ok(inner) => match inner {
                    Result::Ok(u) => (
                        SpecShutdownState::BroadcastPending,
                        ShutdownAction::SendBroadcast,
                    ),
                    Result::Err(m) => (
                        SpecShutdownState::Failed(m),
                        ShutdownAction::NoAction,
                    ),
                },
                Result::Err(m) => (SpecShutdownState::Failed(m), ShutdownAction::NoAction),
            },
            _ => (s, ShutdownAction::NoAction),
        },
        SpecShutdownState::BroadcastPending => match e {
            SpecShutdownEvent::BroadcastResponse(results) => match broadcast_verdict(results) {
                Result::Ok(u) => (SpecShutdownState::Done, ShutdownAction::NoAction),
                Result::Err(m) => (SpecShutdownState::Failed(m), ShutdownAction::NoAction),
            },
            _ => (s, ShutdownAction::NoAction),
        },
        _ => (s, ShutdownAction::NoAction),
    }
}

/// The fan-out aggregation of the executable outcomes equals the verdict of
/// their model.
proof fn lemma_view_verdict(rs: Seq<Result<Result<(), String>, String>>, i: int)
    requires
        0 <= i <= rs.len(),
    ensures
        first_transport_error_from(rs, i) == first_transport_failure_from(call_results_view(rs), i),
        first_app_error_from(rs, i) == first_app_failure_from(call_results_view(rs), i),
    decreases rs.len() - i,
{
    if i < rs.len() {
        lemma_view_verdict(rs, i + 1);
        assert(call_results_view(rs)[i] == call_result_view(rs[i]));
    }
}

/// One step of the shutdown protocol: feeds the coordinator a response and
/// returns the next state and the next request to perform.
pub fn shutdown_step(s: ShutdownState, e: ShutdownEvent) -> (r: (ShutdownState, ShutdownAction))
    ensures
        (r.0@, r.1) == spec_shutdown_step(s@, e@),
{
    match s {
        ShutdownState::FinalizePending => match e {
            ShutdownEvent::FinalizeResponse(resp) => match resp {
                Ok(inner) => match inner {
                    Ok(u) => (ShutdownState::BroadcastPending, ShutdownAction::SendBroadcast),
                    Err(m) => (ShutdownState::Failed(m), ShutdownAction::NoAction),
                },
                Err(m) => (ShutdownState::Failed(m), ShutdownAction::NoAction),
            },
            _ => (ShutdownState::FinalizePending, ShutdownAction::NoAction),
        },
        ShutdownState::BroadcastPending => match e {
            ShutdownEvent::BroadcastResponse(results) => {
                let ghost rs0 = results@;
                let verdict = aggregate_fanout(results);
                proof {
                    lemma_view_verdict(rs0, 0);
                }
                match verdict {
                    Ok(u) => (ShutdownState::Done, ShutdownAction::NoAction),
                    Err(m) => (ShutdownState::Failed(m), ShutdownAction::NoAction),
                }
            },
            _ => (ShutdownState::BroadcastPending, ShutdownAction::NoAction),
        },
        ShutdownState::Done => (ShutdownState::Done, ShutdownAction::NoAction),
        ShutdownState::Failed(m) => (ShutdownState::Failed(m), ShutdownAction::NoAction),
    }
}

/// Maps a terminal coordinator state to the shutdown call's result: success
/// for `Done`, the preserved message as a shutdown error for `Failed`.
pub fn shutdown_result(s: ShutdownState) -> (r: Result<(), PersiaError>)
    requires
        s@ is Done || s@ is Failed,
    ensures
        match r {
            Ok(u) => s@ is Done,
            Err(e) => s@ matches SpecShutdownState::Failed(m) && (e matches
            PersiaError::ShutdownError(em) && em@ == m),
        },
{
    match s {
        ShutdownState::Failed(m) => Err(PersiaError::ShutdownError(m)),
        _ => Ok(()),
    }
}

/// The coordinator emits the phase-two broadcast only out of phase one, and
/// only for a finalize response that succeeded at both the transport and
/// the application level.
pub proof fn lemma_broadcast_needs_finalize_ok(s: SpecShutdownState, e: SpecShutdownEvent)
    ensures
        spec_shutdown_step(s, e).1 == ShutdownAction::SendBroadcast <==> (s
            == SpecShutdownState::FinalizePending && e == SpecShutdownEvent::FinalizeResponse(
            Result::Ok(Result::Ok(())),
        )),
{
    if spec_shutdown_step(s, e).1 == ShutdownAction::SendBroadcast {
        match s {
            SpecShutdownState::FinalizePending => match e {
                SpecShutdownEvent::FinalizeResponse(r) => match r {
                    Result::Ok(inner) => match inner {
                        Result::Ok(u) => {
                            assert(u == ());
                            assert(e == SpecShutdownEvent::FinalizeResponse(
                                Result::<Result<(), Seq<char>>, Seq<char>>::Ok(Result::Ok(())),
                            ));
                        },
                        Result::Err(m) => {},
                    },
                    Result::Err(m) => {},
                },
                _ => {},
            },
            _ => {},
        }
    }
}

/// Once the sequence has failed, no sequence of further events makes the
/// coordinator emit anything.
pub open spec fn run_emits_broadcast(s: SpecShutdownState, events: Seq<SpecShutdownEvent>) -> bool
    decreases events.len(),
{
    if events.len() == 0 {
        false
    } else {
        spec_shutdown_step(s, events[0]).1 == ShutdownAction::SendBroadcast
            || run_emits_broadcast(spec_shutdown_step(s, events[0]).0, events.drop_first())
    }
}

/// A failed sequence never broadcasts, whatever else is observed.
pub proof fn lemma_failed_never_broadcasts(s: SpecShutdownState, events: Seq<SpecShutdownEvent>)
    requires
        s is Failed,
    ensures
        !run_emits_broadcast(s, events),
    decreases events.len(),
{
    if events.len() > 0 {
        lemma_failed_never_broadcasts(spec_shutdown_step(s, events[0]).0, events.drop_first());
    }
}

/// The phase-two broadcast never occurs if phase one's single-shard
/// shutdown call failed: starting the protocol, a finalize response that is
/// not fully successful precludes the broadcast for the whole run, whatever
/// later events are observed.
pub proof fn lemma_no_broadcast_after_failed_finalize(
    events: Seq<SpecShutdownEvent>,
    r: Result<Result<(), Seq<char>>, Seq<char>>,
)
    requires
        events.len() > 0,
        events[0] == SpecShutdownEvent::FinalizeResponse(r),
        r != Result::<Result<(), Seq<char>>, Seq<char>>::Ok(Result::Ok(())),
    ensures
        !run_emits_broadcast(SpecShutdownState::FinalizePending, events),
{
    let next = spec_shutdown_step(SpecShutdownState::FinalizePending, events[0]).0;
    match r {
        Result::Ok(inner) => match inner {
            Result::Ok(u) => {
                assert(u == ());
                assert(false);
            },
            Result::Err(m) => {},
        },
        Result::Err(m) => {},
    }
    assert(next is Failed);
    lemma_failed_never_broadcasts(next, events.drop_first());
}

} // verus!
