//! Verified text helpers: decimal rendering of machine integers and joining
//! a list of strings with a separator. The status reducer uses both to pin
//! down the exact error messages it produces.

use vstd::prelude::*;
use vstd::string::StringExecFns;

verus! {

/// The decimal digit character for `d` (meaningful for `d < 10`).
pub open spec fn digit_char(d: nat) -> char {
    if d == 0 {
        '0'
    } else if d == 1 {
        '1'
    } else if d == 2 {
        '2'
    } else if d == 3 {
        '3'
    } else if d == 4 {
        '4'
    } else if d == 5 {
        '5'
    } else if d == 6 {
        '6'
    } else if d == 7 {
        '7'
    } else if d == 8 {
        '8'
    } else {
        '9'
    }
}

/// The usual decimal rendering of `n`, most significant digit first and
/// without leading zeros.
pub open spec fn dec_rep(n: nat) -> Seq<char>
    decreases n,
{
    if n < 10 {
        seq![digit_char(n)]
    } else {
        dec_rep(n / 10).push(digit_char(n % 10))
    }
}

/// The views of a sequence of strings, element by element.
pub open spec fn views_of(msgs: Seq<String>) -> Seq<Seq<char>> {
    Seq::new(msgs.len(), |i: int| msgs[i]@)
}

/// `msgs` joined with `sep` between consecutive elements.
pub open spec fn spec_join(msgs: Seq<Seq<char>>, sep: Seq<char>) -> Seq<char>
    decreases msgs.len(),
{
    if msgs.len() == 0 {
        Seq::empty()
    } else if msgs.len() == 1 {
        msgs[0]
    } else {
        msgs[0] + sep + spec_join(msgs.drop_first(), sep)
    }
}

/// Relies on `String::push`: appends exactly the given character.
#[verifier::external_body]
fn push_char(s: &mut String, c: char)
    ensures
        final(s)@ == old(s)@.push(c),
{
    s.push(c);
}

/// Returns the decimal digit character for `d`.
fn digit_of(d: usize) -> (c: char)
    requires
        d < 10,
    ensures
        c == digit_char(d as nat),
{
    match d {
        0 => '0',
        1 => '1',
        2 => '2',
        3 => '3',
        4 => '4',
        5 => '5',
        6 => '6',
        7 => '7',
        8 => '8',
        _ => '9',
    }
}

/// Renders `n` in decimal.
pub fn usize_to_string(n: usize) -> (s: String)
    ensures
        s@ == dec_rep(n as nat),
    decreases n,
{
    let c = digit_of(n % 10);
    if n < 10 {
        let mut s = String::new();
        push_char(&mut s, c);
        proof {
            assert(s@ =~= seq![digit_char(n as nat)]);
        }
        s
    } else {
        let mut s = usize_to_string(n / 10);
        push_char(&mut s, c);
        s
    }
}

/// Joins `msgs[i..]` with `sep`.
fn join_from(msgs: &Vec<String>, sep: &str, i: usize) -> (s: String)
    requires
        i <= msgs@.len(),
    ensures
        s@ == spec_join(views_of(msgs@).skip(i as int), sep@),
    decreases msgs@.len() - i,
{
    let ghost ms = views_of(msgs@);
    if i >= msgs.len() {
        proof {
            assert(ms.skip(i as int) =~= Seq::<Seq<char>>::empty());
        }
        String::new()
    } else if i == msgs.len() - 1 {
        proof {
            assert(ms.skip(i as int) =~= seq![ms[i as int]]);
        }
        msgs[i].clone()
    } else {
        let mut s = msgs[i].clone();
        s.append(sep);
        let rest = join_from(msgs, sep, i + 1);
        s.append(rest.as_str());
        proof {
            assert(ms.skip(i as int).drop_first() =~= ms.skip(i + 1));
            assert(ms.skip(i as int)[0] == ms[i as int]);
        }
        s
    }
}

/// Joins `msgs` with `sep`, as `[String]::join` does.
pub fn join_strings(msgs: &Vec<String>, sep: &str) -> (s: String)
    ensures
        s@ == spec_join(views_of(msgs@), sep@),
{
    let s = join_from(msgs, sep, 0);
    proof {
        assert(views_of(msgs@).skip(0) =~= views_of(msgs@));
    }
    s
}

} // verus!
