//! Verified decimal rendering: plain decimal digits, zero-padded fields, and
//! the fixed two-decimal seconds notation used by the plain-text renderer.
//!
//! All times in this crate are integer milliseconds.

use vstd::prelude::*;

use crate::strutil::push_char;

verus! {

/// The decimal digit character for `d` (meaningful for `0 <= d < 10`).
pub open spec fn digit_char(d: int) -> char {
    ((48 + d) as u8) as char
}

/// The decimal digits of `n`, most significant first, no leading zeros
/// (a lone zero for `n == 0`).
pub open spec fn dec_digits(n: nat) -> Seq<char>
    decreases n,
{
    if n < 10 {
        seq![digit_char(n as int)]
    } else {
        dec_digits(n / 10).push(digit_char((n % 10) as int))
    }
}

/// `n` in decimal, zero-padded on the left to at least two digits.
pub open spec fn pad2(n: nat) -> Seq<char> {
    if n < 10 {
        seq!['0'] + dec_digits(n)
    } else {
        dec_digits(n)
    }
}

/// `n` in decimal, zero-padded on the left to at least three digits.
pub open spec fn pad3(n: nat) -> Seq<char> {
    if n < 10 {
        seq!['0', '0'] + dec_digits(n)
    } else if n < 100 {
        seq!['0'] + dec_digits(n)
    } else {
        dec_digits(n)
    }
}

/// Milliseconds rounded (half away from zero) to whole centiseconds.
pub open spec fn centis_of(ms: nat) -> nat {
    ms / 10 + if ms % 10 >= 5 { 1nat } else { 0nat }
}

/// `ms` milliseconds as seconds with exactly two decimals, e.g. `5.20`.
pub open spec fn two_dec(ms: nat) -> Seq<char> {
    let c = centis_of(ms);
    dec_digits(c / 100) + seq!['.'] + pad2(c % 100)
}

/// Appends one decimal digit character.
fn push_digit(s: &mut String, d: u64)
    requires
        d < 10,
    ensures
        final(s)@ == old(s)@.push(digit_char(d as int)),
{
    let c: char = (48 + d as u8) as char;
    push_char(s, c);
}

/// Appends the decimal digits of `n`.
pub fn push_decimal(s: &mut String, n: u64)
    ensures
        final(s)@ == old(s)@ + dec_digits(n as nat),
    decreases n,
{
    if n >= 10 {
        push_decimal(s, n / 10);
    }
    push_digit(s, n % 10);
    proof {
        if n >= 10 {
            assert(final(s)@ =~= old(s)@ + dec_digits(n as nat));
        } else {
            assert(final(s)@ =~= old(s)@ + dec_digits(n as nat));
        }
    }
}

/// Appends `n` zero-padded to at least two digits.
pub fn push_pad2(s: &mut String, n: u64)
    ensures
        final(s)@ == old(s)@ + pad2(n as nat),
{
    if n < 10 {
        push_char(s, '0');
    }
    push_decimal(s, n);
    proof {
        assert(final(s)@ =~= old(s)@ + pad2(n as nat));
    }
}

/// Appends `n` zero-padded to at least three digits.
pub fn push_pad3(s: &mut String, n: u64)
    ensures
        final(s)@ == old(s)@ + pad3(n as nat),
{
    if n < 10 {
        push_char(s, '0');
        push_char(s, '0');
    } else if n < 100 {
        push_char(s, '0');
    }
    push_decimal(s, n);
    proof {
        assert(final(s)@ =~= old(s)@ + pad3(n as nat));
    }
}

/// Appends `ms` milliseconds as seconds with exactly two decimals.
pub fn push_two_dec(s: &mut String, ms: u64)
    ensures
        final(s)@ == old(s)@ + two_dec(ms as nat),
{
    let c: u64 = ms / 10 + if ms % 10 >= 5 { 1 } else { 0 };
    assert(c == centis_of(ms as nat));
    push_decimal(s, c / 100);
    push_char(s, '.');
    push_pad2(s, c % 100);
    proof {
        assert(final(s)@ =~= old(s)@ + two_dec(ms as nat));
    }
}

} // verus!
