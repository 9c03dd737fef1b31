//! Decimal rendering of the integer counts that appear in the output lines.

use vstd::prelude::*;

use crate::chars::digit_char;
use crate::chars::hex_digit;
use crate::chars::push_char;

verus! {

/// Decimal digits of a non-negative number, most significant first.
pub open spec fn dec_u(n: nat) -> Seq<char>
    decreases n,
{
    if n < 10 {
        seq![hex_digit(n)]
    } else {
        dec_u(n / 10) + seq![hex_digit(n % 10)]
    }
}

/// Decimal rendering of a signed number: a minus sign before the digits of
/// its magnitude.
pub open spec fn dec_i(n: int) -> Seq<char> {
    if n < 0 {
        seq!['-'] + dec_u((-n) as nat)
    } else {
        dec_u(n as nat)
    }
}

/// Renders `n` in decimal.
pub fn u64_to_dec(n: u64) -> (r: String)
    ensures
        r@ == dec_u(n as nat),
    decreases n,
{
    if n < 10 {
        let mut s = String::new();
        push_char(&mut s, digit_char(n as u8));
        assert(s@ =~= dec_u(n as nat));
        s
    } else {
        let mut s = u64_to_dec(n / 10);
        push_char(&mut s, digit_char((n % 10) as u8));
        assert(s@ =~= dec_u(n as nat));
        s
    }
}

/// Renders `n` in decimal, with a leading minus sign when it is negative.
pub fn i64_to_dec(n: i64) -> (r: String)
    ensures
        r@ == dec_i(n as int),
{
    if n >= 0 {
        u64_to_dec(n as u64)
    } else {
        let magnitude: u64 = ((-(n + 1)) as u64) + 1;
        assert(magnitude as int == -(n as int));
        let mut s = String::new();
        push_char(&mut s, '-');
        let digits = u64_to_dec(magnitude);
        let r = s.concat(digits.as_str());
        assert(r@ =~= dec_i(n as int));
        r
    }
}

} // verus!
