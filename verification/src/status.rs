//! Per-shard status of long-running load/dump operations, and the status
//! reducer that aggregates one poll cycle's statuses into either the number
//! of idle shards or a joined error message.

use vstd::prelude::*;
use vstd::string::StringExecFns;

use crate::text::{dec_rep, join_strings, spec_join, usize_to_string, views_of};

verus! {

/// The state one shard reports for its long-running load/dump operation.
/// Progress payloads are carried in thousandths of completion; the
/// coordination logic never branches on them.
#[derive(Debug, Clone, PartialEq, Eq)]
pub enum ShardStatus {
    /// No operation in flight.
    Idle,
    /// A load is in flight, with its progress.
    Loading(u32),
    /// A dump is in flight, with its progress.
    Dumping(u32),
    /// The operation failed, with the shard's message.
    Failed(String),
}

/// Number of `Idle` entries in `s`.
pub open spec fn idle_count(s: Seq<ShardStatus>) -> nat
    decreases s.len(),
{
    if s.len() == 0 {
        0
    } else {
        idle_count(s.drop_last()) + (if s.last() is Idle {
            1nat
        } else {
            0nat
        })
    }
}

/// The failure message reported when shard `i` fails with message `e`.
pub open spec fn shard_failure_msg(i: nat, e: Seq<char>) -> Seq<char> {
    "emb dump FAILED for server "@ + dec_rep(i) + ", due to "@ + e + "."@
}

/// The messages of all `Failed` entries of `s`, in shard-index order.
pub open spec fn failure_msgs(s: Seq<ShardStatus>) -> Seq<Seq<char>>
    decreases s.len(),
{
    if s.len() == 0 {
        Seq::empty()
    } else {
        let rest = failure_msgs(s.drop_last());
        match s.last() {
            ShardStatus::Failed(e) => rest.push(
                shard_failure_msg((s.len() - 1) as nat, e@),
            ),
            _ => rest,
        }
    }
}

/// What the status reducer returns for `s`: any `Failed` entry makes the
/// whole reduction an error joining all failure messages with ", ";
/// otherwise the count of `Idle` entries.
pub open spec fn spec_reduce(s: Seq<ShardStatus>) -> Result<nat, Seq<char>> {
    if failure_msgs(s).len() > 0 {
        Result::Err(spec_join(failure_msgs(s), ", "@))
    } else {
        Result::Ok(idle_count(s))
    }
}

/// `true` iff some entry of `s` is `Loading`.
pub open spec fn has_loading(s: Seq<ShardStatus>) -> bool {
    exists|i: int| 0 <= i < s.len() && s[i] is Loading
}

/// Builds the reducer's failure message for shard `idx` failing with `e`.
pub fn shard_failure_message(idx: usize, e: &String) -> (m: String)
    ensures
        m@ == shard_failure_msg(idx as nat, e@),
{
    let mut m = String::from_str("emb dump FAILED for server ");
    let d = usize_to_string(idx);
    m.append(d.as_str());
    m.append(", due to ");
    m.append(e.as_str());
    m.append(".");
    m
}

/// The status reducer: given one poll cycle's per-shard statuses, returns
/// the number of idle shards, or the joined failure messages if any shard
/// reported `Failed`.
pub fn reduce_statuses(status: &Vec<ShardStatus>) -> (r: Result<usize, String>)
    ensures
        match r {
            Ok(c) => spec_reduce(status@) == Result::<nat, Seq<char>>::Ok(c as nat),
            Err(m) => spec_reduce(status@) == Result::<nat, Seq<char>>::Err(m@),
        },
{
    let mut num_completed: usize = 0;
    let mut errors: Vec<String> = Vec::new();
    let mut i: usize = 0;
    while i < status.len()
        invariant
            i <= status@.len(),
            num_completed <= i,
            num_completed as nat == idle_count(status@.take(i as int)),
            views_of(errors@) == failure_msgs(status@.take(i as int)),
        decreases status@.len() - i,
    {
        proof {
            assert(status@.take(i + 1).drop_last() =~= status@.take(i as int));
            assert(status@.take(i + 1).last() == status@[i as int]);
        }
        match &status[i] {
            ShardStatus::Failed(e) => {
                let msg = shard_failure_message(i, e);
                let ghost prev = errors@;
                errors.push(msg);
                proof {
                    assert(status@.take(i + 1).last() matches ShardStatus::Failed(e0)
                        && e0@ == e@);
                    assert(failure_msgs(status@.take(i + 1)) == failure_msgs(
                        status@.take(i as int),
                    ).push(shard_failure_msg(i as nat, e@)));
                    assert(errors@ == prev.push(msg));
                    assert(views_of(errors@) =~= failure_msgs(status@.take(i + 1)));
                }
            },
            ShardStatus::Idle => {
                num_completed = num_completed + 1;
            },
            _ => {},
        }
        i = i + 1;
    }
    proof {
        assert(status@.take(status@.len() as int) =~= status@);
    }
    if errors.len() > 0 {
        Err(join_strings(&errors, ", "))
    } else {
        Ok(num_completed)
    }
}

} // verus!
