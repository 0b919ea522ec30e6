//! Decimal rendering of integers, used when formatting paths and error
//! messages.

use vstd::prelude::*;

verus! {

/// The character for a single decimal digit.
pub open spec fn digit_char(d: int) -> char {
    if d == 0 {
        '0'
    } else if d == 1 {
        '1'
    } else if d == 2 {
        '2'
    } else if d == 3 {
        '3'
    } else if d == 4 {
        '4'
    } else if d == 5 {
        '5'
    } else if d == 6 {
        '6'
    } else if d == 7 {
        '7'
    } else if d == 8 {
        '8'
    } else {
        '9'
    }
}

/// Decimal representation of a non-negative integer, most significant
/// digit first.
pub open spec fn dec_rep(n: int) -> Seq<char>
    decreases n,
{
    if n < 10 {
        seq![digit_char(n)]
    } else {
        dec_rep(n / 10).push(digit_char(n % 10))
    }
}

/// Decimal representation of a signed integer: a leading `-` for
/// negative values.
pub open spec fn int_rep(n: int) -> Seq<char> {
    if n < 0 {
        seq!['-'] + dec_rep(-n)
    } else {
        dec_rep(n)
    }
}

/// Relies on `String::push`: appends the given character to the end of
/// the string.
#[verifier::external_body]
pub fn push_char(s: &mut String, c: char)
    ensures
        final(s)@ == old(s)@.push(c),
{
    s.push(c);
}

fn digit_to_char(d: u64) -> (c: char)
    requires
        d < 10,
    ensures
        c == digit_char(d as int),
{
    match d {
        0 => '0',
        1 => '1',
        2 => '2',
        3 => '3',
        4 => '4',
        5 => '5',
        6 => '6',
        7 => '7',
        8 => '8',
        _ => '9',
    }
}

/// Appends the decimal form of `n` to `out`.
pub fn append_u64(out: &mut String, n: u64)
    ensures
        final(out)@ == old(out)@ + dec_rep(n as int),
    decreases n,
{
    if n < 10 {
        push_char(out, digit_to_char(n));
    } else {
        append_u64(out, n / 10);
        push_char(out, digit_to_char(n % 10));
    }
}

/// Appends the decimal form of `n` to `out`, with a leading `-` when
/// negative.
pub fn append_i64(out: &mut String, n: i64)
    ensures
        final(out)@ == old(out)@ + int_rep(n as int),
{
    if n < 0 {
        push_char(out, '-');
        let m: u64 = (n as i128 * -1) as u64;
        assert(m == -(n as int));
        append_u64(out, m);
        assert(out@ =~= old(out)@ + int_rep(n as int));
    } else {
        append_u64(out, n as u64);
    }
}

/// The decimal form of `n` as a fresh string.
pub fn u64_string(n: u64) -> (s: String)
    ensures
        s@ == dec_rep(n as int),
{
    let mut s = String::new();
    append_u64(&mut s, n);
    assert(s@ =~= dec_rep(n as int));
    s
}

} // verus!
