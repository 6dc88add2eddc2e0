//! Endpoint names: each worker has a Done endpoint (`<base>/m2s_<ii>`) and a
//! Continue endpoint (`<base>/s2m_<ii>`), with the worker's index written in
//! decimal and padded with zeros to at least two digits.
use vstd::prelude::*;

verus! {

/// The two channels of one worker.
#[derive(Clone, Copy, Debug, PartialEq, Eq, Structural)]
pub enum Channel {
    /// Worker to coordinator; the coordinator binds it.
    Done,
    /// Coordinator to worker; the worker binds it.
    Continue,
}

/// The decimal digit `d`, for `d < 10`.
pub open spec fn digit_char(d: nat) -> char {
    if d == 0 { '0' }
    else if d == 1 { '1' }
    else if d == 2 { '2' }
    else if d == 3 { '3' }
    else if d == 4 { '4' }
    else if d == 5 { '5' }
    else if d == 6 { '6' }
    else if d == 7 { '7' }
    else if d == 8 { '8' }
    else { '9' }
}

/// `i` in decimal, without leading zeros.
pub open spec fn decimal(i: nat) -> Seq<char>
    decreases i,
{
    if i < 10 {
        seq![digit_char(i)]
    } else {
        decimal(i / 10).push(digit_char(i % 10))
    }
}

/// `i` in decimal, padded with zeros to at least two digits.
pub open spec fn padded_index(i: nat) -> Seq<char> {
    if i < 10 {
        seq!['0', digit_char(i)]
    } else {
        decimal(i)
    }
}

/// What stands between the base path and the index.
pub open spec fn channel_prefix(c: Channel) -> Seq<char> {
    match c {
        Channel::Done => seq!['/', 'm', '2', 's', '_'],
        Channel::Continue => seq!['/', 's', '2', 'm', '_'],
    }
}

/// The path of worker `index`'s endpoint on channel `c`.
pub open spec fn endpoint_of(base: Seq<char>, c: Channel, index: nat) -> Seq<char> {
    base + channel_prefix(c) + padded_index(index)
}

fn digit_str(d: u64) -> (r: &'static str)
    requires
        d < 10,
    ensures
        r@ == seq![digit_char(d as nat)],
{
    proof {
        reveal_strlit("0");
        reveal_strlit("1");
        reveal_strlit("2");
        reveal_strlit("3");
        reveal_strlit("4");
        reveal_strlit("5");
        reveal_strlit("6");
        reveal_strlit("7");
        reveal_strlit("8");
        reveal_strlit("9");
    }
    let r = if d == 0 { "0" }
    else if d == 1 { "1" }
    else if d == 2 { "2" }
    else if d == 3 { "3" }
    else if d == 4 { "4" }
    else if d == 5 { "5" }
    else if d == 6 { "6" }
    else if d == 7 { "7" }
    else if d == 8 { "8" }
    else { "9" };
    assert(r@ =~= seq![digit_char(d as nat)]);
    r
}

fn append_decimal(s: &mut String, i: u64)
    ensures
        final(s)@ == old(s)@ + decimal(i as nat),
    decreases i,
{
    if i >= 10 {
        append_decimal(s, i / 10);
    }
    s.append(digit_str(i % 10));
    proof {
        if i >= 10 {
            assert(final(s)@ =~= old(s)@ + decimal(i as nat));
        } else {
            assert(final(s)@ =~= old(s)@ + decimal(i as nat));
        }
    }
}

/// The path of worker `index`'s endpoint on channel `c`, under `base`.
pub fn endpoint_path(base: &str, c: Channel, index: u64) -> (r: String)
    ensures
        r@ == endpoint_of(base@, c, index as nat),
{
    proof {
        reveal_strlit("/m2s_");
        reveal_strlit("/s2m_");
        reveal_strlit("0");
    }
    let mut s = String::from_str(base);
    match c {
        Channel::Done => s.append("/m2s_"),
        Channel::Continue => s.append("/s2m_"),
    }
    let ghost head = s@;
    assert(head =~= base@ + channel_prefix(c));
    if index < 10 {
        s.append("0");
    }
    append_decimal(&mut s, index);
    assert(s@ =~= endpoint_of(base@, c, index as nat));
    s
}

} // verus!
