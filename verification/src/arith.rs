use vstd::prelude::*;
use vstd::arithmetic::div_mod::lemma_div_is_ordered;
use vstd::arithmetic::div_mod::lemma_div_multiples_vanish;
use vstd::arithmetic::div_mod::lemma_div_pos_is_pos;
use vstd::arithmetic::mul::lemma_mul_inequality;
use vstd::arithmetic::mul::lemma_mul_nonnegative;

verus! {

/// The value a narrowing cast to `u64` keeps: `x` itself when it
/// fits, else the truncation the cast performs.
pub open spec fn low_u64(x: int) -> u64 {
    #[verifier::truncate] (x as u64)
}

/// Adds a signed delta to an unsigned reserve balance, refusing to go
/// below zero.
pub fn add_delta(value: u128, delta: i128) -> (r: Option<u128>)
    requires
        value + delta <= u128::MAX,
    ensures
        value + delta >= 0 ==> r == Some(((value + delta) as u128)),
        value + delta < 0 ==> r is None,
{
    if delta >= 0 {
        Some(value + (delta as u128))
    } else {
        let magnitude: u128 = ((-1 - delta) as u128) + 1;
        if value >= magnitude {
            Some(value - magnitude)
        } else {
            None
        }
    }
}

/// Bounds a floored product-quotient: `(a * b) / c` lies between `0`
/// and `b` whenever `0 <= a <= c`.
pub proof fn lemma_mul_div_le(a: int, b: int, c: int)
    requires
        0 <= a,
        a <= c,
        0 <= b,
        0 < c,
    ensures
        0 <= (a * b) / c,
        (a * b) / c <= b,
{
    lemma_mul_nonnegative(a, b);
    lemma_div_pos_is_pos(a * b, c);
    lemma_mul_inequality(a, c, b);
    lemma_div_is_ordered(a * b, c * b, c);
    lemma_div_multiples_vanish(b, c);
}

} // verus!
