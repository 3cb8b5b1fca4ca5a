//! Pure integer splits used to center decorative text inside the
//! fixed-width background fill.

use vstd::prelude::*;

verus! {

/// Half-split: even counts split evenly, odd counts give the extra
/// character to the right side.
pub open spec fn spec_half(n: nat) -> (nat, nat) {
    if n % 2 == 0 {
        (n / 2, n / 2)
    } else {
        (n / 2, n / 2 + 1)
    }
}

/// Triple-split: three near-equal parts; remainder one goes to the middle,
/// remainder two goes to the two outer parts.
pub open spec fn spec_triple(n: nat) -> (nat, nat, nat) {
    if n % 3 == 0 {
        (n / 3, n / 3, n / 3)
    } else if n % 3 == 1 {
        (n / 3, n / 3 + 1, n / 3)
    } else {
        (n / 3 + 1, n / 3, n / 3 + 1)
    }
}

/// Left and right character counts straddling a centered text.
pub fn calc_bg_half(chars_needed: usize) -> (r: (usize, usize))
    ensures
        r.0 as nat == spec_half(chars_needed as nat).0,
        r.1 as nat == spec_half(chars_needed as nat).1,
        r.0 + r.1 == chars_needed,
{
    if chars_needed % 2 == 0 {
        let half = chars_needed / 2;
        (half, half)
    } else {
        let even_count = chars_needed - 1;
        let under_half = even_count / 2;
        (under_half, under_half + 1)
    }
}

/// Splits a number of characters into a symmetrical amount of three.
pub fn calc_bg_triple(chars_needed: usize) -> (r: (usize, usize, usize))
    ensures
        r.0 as nat == spec_triple(chars_needed as nat).0,
        r.1 as nat == spec_triple(chars_needed as nat).1,
        r.2 as nat == spec_triple(chars_needed as nat).2,
        r.0 + r.1 + r.2 == chars_needed,
{
    if chars_needed % 3 == 0 {
        let third = chars_needed / 3;
        (third, third, third)
    } else if chars_needed % 3 == 1 {
        let third = chars_needed / 3;
        (third, third + 1, third)
    } else {
        let third = chars_needed / 3;
        (third + 1, third, third + 1)
    }
}

} // verus!
