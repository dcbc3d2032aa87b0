//! Fan-out of a write across shards: partitioning a batch into one
//! contiguous chunk per shard, and all-or-fail aggregation of the results
//! once every concurrent call has finished. The unverified driver performs
//! the per-shard calls; the partitioning rule and the aggregation are
//! verified here.

use vstd::prelude::*;
use vstd::arithmetic::div_mod::{lemma_fundamental_div_mod, lemma_mod_bound};
use vstd::arithmetic::mul::lemma_mul_inequality;

verus! {

/// The views of a sequence of vectors, element by element.
pub open spec fn views_of_vecs<T>(chunks: Seq<Vec<T>>) -> Seq<Seq<T>> {
    Seq::new(chunks.len(), |i: int| chunks[i]@)
}

/// All chunks concatenated in order.
pub open spec fn concat_chunks<T>(chunks: Seq<Seq<T>>) -> Seq<T>
    decreases chunks.len(),
{
    if chunks.len() == 0 {
        Seq::empty()
    } else {
        concat_chunks(chunks.drop_last()) + chunks.last()
    }
}

proof fn lemma_concat_push<T>(chunks: Seq<Seq<T>>, x: Seq<T>)
    ensures
        concat_chunks(chunks.push(x)) == concat_chunks(chunks) + x,
{
    assert(chunks.push(x).drop_last() =~= chunks);
    assert(chunks.push(x).last() == x);
}

/// Partitions `entries` into `num_shards` contiguous chunks: the first
/// `num_shards - 1` chunks hold exactly `⌊len / num_shards⌋` entries each
/// and the last chunk absorbs the remainder; concatenating the chunks in
/// order reproduces the batch.
pub fn partition_batch<T>(entries: Vec<T>, num_shards: usize) -> (chunks: Vec<Vec<T>>)
    requires
        1 <= num_shards,
    ensures
        chunks@.len() == num_shards as int,
        forall|i: int|
            0 <= i < num_shards as int - 1 ==> (#[trigger] chunks@[i])@.len() == entries@.len()
                as int / num_shards as int,
        chunks@[num_shards as int - 1]@.len() == entries@.len() - (num_shards - 1) * (
        entries@.len() as int / num_shards as int),
        concat_chunks(views_of_vecs(chunks@)) == entries@,
{
    let ghost entries0 = entries@;
    let l = entries.len();
    let csize = l / num_shards;
    proof {
        lemma_fundamental_div_mod(l as int, num_shards as int);
        lemma_mod_bound(l as int, num_shards as int);
    }
    let mut chunks: Vec<Vec<T>> = Vec::new();
    let mut rest = entries;
    while chunks.len() < num_shards - 1
        invariant
            1 <= num_shards,
            csize == entries0.len() as int / num_shards as int,
            l == entries0.len(),
            l as int == num_shards * csize + l as int % num_shards as int,
            0 <= l as int % num_shards as int,
            chunks@.len() <= num_shards - 1,
            forall|i: int|
                0 <= i < chunks@.len() ==> (#[trigger] chunks@[i])@.len() == csize as int,
            rest@ == entries0.skip(chunks@.len() * csize as int),
            concat_chunks(views_of_vecs(chunks@)) == entries0.take(chunks@.len() * csize as int),
        decreases num_shards - 1 - chunks@.len(),
    {
        let ghost k = chunks@.len() as int;
        proof {
            lemma_mul_inequality(k + 1, num_shards as int, csize as int);
            assert((k + 1) * csize == k * csize + csize) by (nonlinear_arith);
            assert(rest@.len() == l - k * csize);
        }
        let tail = rest.split_off(csize);
        let ghost prev_chunks = chunks@;
        chunks.push(rest);
        rest = tail;
        proof {
            assert(views_of_vecs(chunks@) =~= views_of_vecs(prev_chunks).push(chunks@[k]@));
            lemma_concat_push(views_of_vecs(prev_chunks), chunks@[k]@);
            assert(rest@ =~= entries0.skip((k + 1) * csize as int));
            assert(entries0.take((k + 1) * csize as int) =~= entries0.take(k * csize as int)
                + chunks@[k]@);
        }
    }
    let ghost k = chunks@.len() as int;
    proof {
        lemma_mul_inequality(k, num_shards as int, csize as int);
        assert(k * csize + csize == (k + 1) * csize) by (nonlinear_arith);
    }
    let ghost prev_chunks = chunks@;
    chunks.push(rest);
    proof {
        assert(views_of_vecs(chunks@) =~= views_of_vecs(prev_chunks).push(chunks@[k]@));
        lemma_concat_push(views_of_vecs(prev_chunks), chunks@[k]@);
        assert(entries0.take(k * csize as int) + entries0.skip(k * csize as int) =~= entries0);
    }
    chunks
}

/// The first transport-level error message at or after `i`, if any.
pub open spec fn first_transport_error_from(
    rs: Seq<Result<Result<(), String>, String>>,
    i: int,
) -> Option<Seq<char>>
    decreases rs.len() - i,
{
    if i < 0 || i >= rs.len() {
        None
    } else {
        match rs[i] {
            Result::Err(m) => Some(m@),
            _ => first_transport_error_from(rs, i + 1),
        }
    }
}

/// The first application-level error message at or after `i`, if any.
pub open spec fn first_app_error_from(
    rs: Seq<Result<Result<(), String>, String>>,
    i: int,
) -> Option<Seq<char>>
    decreases rs.len() - i,
{
    if i < 0 || i >= rs.len() {
        None
    } else {
        match rs[i] {
            Result::Ok(inner) => match inner {
                Result::Err(m) => Some(m@),
                _ => first_app_error_from(rs, i + 1),
            },
            _ => first_app_error_from(rs, i + 1),
        }
    }
}

/// What the fan-out aggregation returns, once every concurrent call has
/// finished: the first transport-level error in shard-index order, else the
/// first application-level error, else success.
pub open spec fn spec_aggregate(rs: Seq<Result<Result<(), String>, String>>) -> Result<
    (),
    Seq<char>,
> {
    if first_transport_error_from(rs, 0) is Some {
        Result::Err(first_transport_error_from(rs, 0).unwrap())
    } else if first_app_error_from(rs, 0) is Some {
        Result::Err(first_app_error_from(rs, 0).unwrap())
    } else {
        Result::Ok(())
    }
}

/// `true` iff every call succeeded at both levels.
pub open spec fn all_calls_ok(rs: Seq<Result<Result<(), String>, String>>) -> bool {
    forall|i: int|
        0 <= i < rs.len() ==> ((#[trigger] rs[i]) matches Result::Ok(inner) && inner is Ok)
}

/// Aggregates the per-shard outcomes of one fan-out operation. The outer
/// `Result` of an element is the transport outcome of that shard's call,
/// the inner one the shard's own response; the aggregate fails if any call
/// failed, reporting the first error encountered, and no shard's outcome is
/// skipped.
pub fn aggregate_fanout(results: Vec<Result<Result<(), String>, String>>) -> (r: Result<
    (),
    String,
>)
    ensures
        match r {
            Ok(u) => spec_aggregate(results@) == Result::<(), Seq<char>>::Ok(()),
            Err(m) => spec_aggregate(results@) == Result::<(), Seq<char>>::Err(m@),
        },
{
    let mut i: usize = 0;
    while i < results.len()
        invariant
            i <= results@.len(),
            first_transport_error_from(results@, 0) == first_transport_error_from(
                results@,
                i as int,
            ),
        decreases results@.len() - i,
    {
        match &results[i] {
            Err(m) => {
                return Err(m.clone());
            },
            _ => {},
        }
        i = i + 1;
    }
    let mut j: usize = 0;
    while j < results.len()
        invariant
            j <= results@.len(),
            first_transport_error_from(results@, 0) is None,
            first_transport_error_from(results@, j as int) is None,
            first_app_error_from(results@, 0) == first_app_error_from(results@, j as int),
        decreases results@.len() - j,
    {
        match &results[j] {
            Ok(inner) => match inner {
                Err(m) => {
                    return Err(m.clone());
                },
                _ => {},
            },
            Err(m) => {
                proof {
                    assert(first_transport_error_from(results@, j as int) is Some);
                }
                return Err(m.clone());
            },
        }
        j = j + 1;
    }
    Ok(())
}

/// The fan-out aggregate succeeds exactly when every one of the concurrent
/// calls succeeded: one failing call among any number of completed ones
/// makes the whole operation fail.
pub proof fn lemma_aggregate_ok_iff_all_ok(rs: Seq<Result<Result<(), String>, String>>)
    ensures
        spec_aggregate(rs) is Ok <==> all_calls_ok(rs),
{
    lemma_no_errors_iff_all_ok(rs, 0);
}

proof fn lemma_no_errors_iff_all_ok(rs: Seq<Result<Result<(), String>, String>>, i: int)
    requires
        0 <= i <= rs.len(),
    ensures
        (first_transport_error_from(rs, i) is None && first_app_error_from(rs, i) is None) <==> (
        forall|k: int|
            i <= k < rs.len() ==> ((#[trigger] rs[k]) matches Result::Ok(inner) && inner is Ok)),
    decreases rs.len() - i,
{
    if i < rs.len() {
        lemma_no_errors_iff_all_ok(rs, i + 1);
    }
}

} // verus!
