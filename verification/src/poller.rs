//! Step logic of the long-running-operation polling loops. Each wait loop
//! polls shards on a fixed interval; one call of a step function decides,
//! from the freshly queried data of one cycle, whether the wait is complete,
//! must go on, or has hit a fatal condition. The unverified driver performs
//! the queries and the task-level delay between cycles and feeds each
//! cycle's outcome back in.

use vstd::prelude::*;
use vstd::string::StringExecFns;

use crate::status::{has_loading, reduce_statuses, spec_reduce, ShardStatus};

verus! {

/// What one poll cycle decided.
#[derive(Debug, Clone, PartialEq, Eq)]
pub enum PollOutcome {
    /// The awaited terminal condition is reached.
    Complete,
    /// Nothing terminal was observed: sleep for the fixed interval and poll
    /// again.
    Continue,
    /// A fatal condition: the wait fails with this message.
    Fatal(String),
}

/// The message of the dump-wait guard: a dump was requested while at least
/// one shard is still loading.
pub open spec fn loading_during_dump_msg() -> Seq<char> {
    "emb status is loading but waiting for dump."@
}

/// One cycle of the readiness wait: `ready` is the polled shard's ready
/// flag, or `None` if the query itself failed. The wait completes exactly
/// when the flag came back `true`; everything else, a query failure
/// included, is transient.
pub fn serving_poll_step(ready: Option<bool>) -> (d: PollOutcome)
    ensures
        ready == Some(true) ==> d == PollOutcome::Complete,
        ready != Some(true) ==> d == PollOutcome::Continue,
{
    match ready {
        Some(true) => PollOutcome::Complete,
        _ => PollOutcome::Continue,
    }
}

/// One cycle of the load-completion wait: `ready` is the representative
/// shard's ready flag (`None` if that query failed); `statuses` is the full
/// per-shard status list fetched when the flag was `false` (`None` if that
/// query failed). The wait completes when the flag is `true`; a reducer
/// error is fatal; everything else, query failures included, is transient.
pub fn loading_poll_step(ready: Option<bool>, statuses: Option<Vec<ShardStatus>>) -> (d:
    PollOutcome)
    ensures
        match ready {
            Some(true) => d == PollOutcome::Complete,
            Some(false) => match statuses {
                Some(s) => match spec_reduce(s@) {
                    Result::Ok(_) => d == PollOutcome::Continue,
                    Result::Err(m) => d matches PollOutcome::Fatal(f) && f@ == m,
                },
                None => d == PollOutcome::Continue,
            },
            None => d == PollOutcome::Continue,
        },
{
    match ready {
        Some(true) => PollOutcome::Complete,
        Some(false) => match statuses {
            Some(s) => match reduce_statuses(&s) {
                Ok(_) => PollOutcome::Continue,
                Err(m) => PollOutcome::Fatal(m),
            },
            None => PollOutcome::Continue,
        },
        None => PollOutcome::Continue,
    }
}

/// Returns whether some entry of `status` is `Loading`.
fn any_loading(status: &Vec<ShardStatus>) -> (b: bool)
    ensures
        b == has_loading(status@),
{
    let mut i: usize = 0;
    while i < status.len()
        invariant
            i <= status@.len(),
            forall|j: int| 0 <= j < i ==> !(status@[j] is Loading),
        decreases status@.len() - i,
    {
        match &status[i] {
            ShardStatus::Loading(_) => {
                return true;
            },
            _ => {},
        }
        i = i + 1;
    }
    false
}

/// One cycle of the dump-completion wait: `statuses` is the freshly queried
/// status of every shard, or `None` if the query failed (transient). Any
/// shard still `Loading` is a fatal inconsistency, regardless of the other
/// shards' states; otherwise a reducer error is fatal, and the wait
/// completes exactly when every shard is `Idle`.
pub fn dumping_poll_step(statuses: Option<Vec<ShardStatus>>) -> (d: PollOutcome)
    ensures
        match statuses {
            None => d == PollOutcome::Continue,
            Some(s) => {
                if has_loading(s@) {
                    d matches PollOutcome::Fatal(m) && m@ == loading_during_dump_msg()
                } else {
                    match spec_reduce(s@) {
                        Result::Err(e) => d matches PollOutcome::Fatal(m) && m@ == e,
                        Result::Ok(c) => {
                            if c == s@.len() {
                                d == PollOutcome::Complete
                            } else {
                                d == PollOutcome::Continue
                            }
                        },
                    }
                }
            },
        },
{
    match statuses {
        None => PollOutcome::Continue,
        Some(s) => {
            if any_loading(&s) {
                PollOutcome::Fatal(String::from_str(
                    "emb status is loading but waiting for dump.",
                ))
            } else {
                let num_total = s.len();
                match reduce_statuses(&s) {
                    Ok(num_completed) => {
                        if num_completed == num_total {
                            PollOutcome::Complete
                        } else {
                            PollOutcome::Continue
                        }
                    },
                    Err(m) => PollOutcome::Fatal(m),
                }
            }
        },
    }
}

} // verus!
