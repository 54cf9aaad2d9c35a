use vstd::prelude::*;
use vstd::arithmetic::div_mod::lemma_fundamental_div_mod;
use vstd::arithmetic::mul::lemma_mul_inequality;
use crate::arith::lemma_mul_div_le;

verus! {

/// Output amount of a swap under the constant-product rule with a
/// fixed 0.3% fee, as an exact integer formula:
/// `floor(x*997*r_out / (r_in*1000 + x*997))`, and `0` when the
/// denominator is `0` (degenerate empty-pool guard, not an error).
pub open spec fn spec_amount_out(input_amount: int, input_reserve: int, output_reserve: int) -> int {
    let input_amount_with_fee = input_amount * 997;
    let denominator = input_reserve * 1000 + input_amount_with_fee;
    if denominator > 0 {
        (input_amount_with_fee * output_reserve) / denominator
    } else {
        0
    }
}

/// Pricing engine: computes [`spec_amount_out`] over the machine
/// integers. Pure and deterministic; the preconditions only keep the
/// 128-bit intermediate products from overflowing.
pub fn get_amount_out(input_amount: u128, input_reserve: u128, output_reserve: u128) -> (out: u128)
    requires
        input_amount * 997 <= u128::MAX,
        input_amount * 997 * output_reserve <= u128::MAX,
        input_reserve * 1000 + input_amount * 997 <= u128::MAX,
    ensures
        out == spec_amount_out(input_amount as int, input_reserve as int, output_reserve as int),
{
    let input_amount_with_fee = input_amount * 997;
    let numerator = input_amount_with_fee * output_reserve;
    let denominator = input_reserve * 1000 + input_amount_with_fee;
    if denominator > 0 {
        numerator / denominator
    } else {
        0
    }
}

/// A swap quote never pays out more than the output reserve holds,
/// and never goes negative.
pub proof fn lemma_amount_out_bounds(x: int, r_in: int, r_out: int)
    requires
        0 <= x,
        0 <= r_in,
        0 <= r_out,
    ensures
        0 <= spec_amount_out(x, r_in, r_out),
        spec_amount_out(x, r_in, r_out) <= r_out,
{
    let f = x * 997;
    let d = r_in * 1000 + f;
    if d > 0 {
        lemma_mul_div_le(f, r_out, d);
    }
}

/// A quote for a zero input amount is zero.
pub proof fn lemma_amount_out_zero_input(r_in: int, r_out: int)
    ensures
        spec_amount_out(0, r_in, r_out) == 0,
{
    let d = r_in * 1000;
    if d > 0 {
        assert((0 * r_out) / d == 0);
    }
}

/// A quote against an empty output reserve is zero.
pub proof fn lemma_amount_out_zero_output_reserve(x: int, r_in: int)
    ensures
        spec_amount_out(x, r_in, 0) == 0,
{
    let f = x * 997;
    let d = r_in * 1000 + f;
    if d > 0 {
        assert((f * 0) / d == 0);
    }
}

/// Constant-product law, fee-adjusted: a swap of `x` input units
/// against reserves `(r_in, r_out)` that pays out
/// [`spec_amount_out`]`(x, r_in, r_out)` never decreases the product
/// of the reserves, integer truncation included.
pub proof fn lemma_swap_product_non_decreasing(x: int, r_in: int, r_out: int)
    requires
        0 <= x,
        0 <= r_in,
        0 <= r_out,
    ensures
        (r_in + x) * (r_out - spec_amount_out(x, r_in, r_out)) >= r_in * r_out,
{
    let f = x * 997;
    let d = r_in * 1000 + f;
    let out = spec_amount_out(x, r_in, r_out);
    lemma_amount_out_bounds(x, r_in, r_out);
    if d > 0 {
        lemma_fundamental_div_mod(f * r_out, d);
        assert(out * d <= f * r_out) by (nonlinear_arith)
            requires
                f * r_out == d * ((f * r_out) / d) + (f * r_out) % d,
                out == (f * r_out) / d,
                d > 0,
        ;
        assert((r_in + x) * f <= x * d) by (nonlinear_arith)
            requires
                f == x * 997,
                d == r_in * 1000 + f,
                0 <= x,
                0 <= r_in,
        ;
        lemma_mul_inequality(out * d, f * r_out, r_in + x);
        lemma_mul_inequality((r_in + x) * f, x * d, r_out);
        assert((r_in + x) * out <= x * r_out) by (nonlinear_arith)
            requires
                (out * d) * (r_in + x) <= (f * r_out) * (r_in + x),
                ((r_in + x) * f) * r_out <= (x * d) * r_out,
                d > 0,
        ;
        assert((r_in + x) * (r_out - out) >= r_in * r_out) by (nonlinear_arith)
            requires
                (r_in + x) * out <= x * r_out,
                0 <= x,
                0 <= r_in,
                0 <= r_out,
        ;
    } else {
        assert(out == 0);
        assert((r_in + x) * (r_out - 0) >= r_in * r_out) by (nonlinear_arith)
            requires
                0 <= x,
                0 <= r_in,
                0 <= r_out,
        ;
    }
}

} // verus!
