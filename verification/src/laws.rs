use vstd::prelude::*;
use crate::pricing::lemma_amount_out_bounds;
use crate::pricing::lemma_swap_product_non_decreasing;
use crate::pricing::spec_amount_out;

verus! {

/// One swap request against the pool: a buy pays settlement units in,
/// a sell pays token units in.
pub enum SwapOp {
    /// Buy tokens with this many settlement units.
    Buy(u64),
    /// Sell this many token units.
    Sell(u64),
}

/// The reserve pair `(reserve_a, reserve_sol)` after one swap, over
/// unbounded integers: the payout is priced against the pre-trade
/// reserves, then the input is credited and the payout debited.
pub open spec fn swap_step(reserves: (int, int), trade: SwapOp) -> (int, int) {
    match trade {
        SwapOp::Buy(x) => (
            reserves.0 - spec_amount_out(x as int, reserves.1, reserves.0),
            reserves.1 + x,
        ),
        SwapOp::Sell(x) => (
            reserves.0 + x,
            reserves.1 - spec_amount_out(x as int, reserves.0, reserves.1),
        ),
    }
}

/// The reserve pair after a whole history of swaps, oldest first.
pub open spec fn swap_run(reserves: (int, int), trades: Seq<SwapOp>) -> (int, int)
    decreases trades.len(),
{
    if trades.len() == 0 {
        reserves
    } else {
        swap_run(swap_step(reserves, trades[0]), trades.subrange(1, trades.len() as int))
    }
}

/// Invariant preservation: starting from non-negative reserves, every
/// sequence of buy/sell operations leaves both reserves non-negative,
/// and the reserve product after the run is at least the product
/// before it — so, applied to each suffix of a history, the product
/// never decreases across any single swap either, integer truncation
/// and the 0.3% fee included.
pub proof fn lemma_swap_run_preserves_invariant(reserves: (int, int), trades: Seq<SwapOp>)
    requires
        0 <= reserves.0,
        0 <= reserves.1,
    ensures
        0 <= swap_run(reserves, trades).0,
        0 <= swap_run(reserves, trades).1,
        swap_run(reserves, trades).0 * swap_run(reserves, trades).1 >= reserves.0 * reserves.1,
    decreases trades.len(),
{
    if trades.len() > 0 {
        let next = swap_step(reserves, trades[0]);
        match trades[0] {
            SwapOp::Buy(x) => {
                lemma_amount_out_bounds(x as int, reserves.1, reserves.0);
                lemma_swap_product_non_decreasing(x as int, reserves.1, reserves.0);
                assert(next.0 * next.1 >= reserves.0 * reserves.1) by (nonlinear_arith)
                    requires
                        next.0 == reserves.0 - spec_amount_out(x as int, reserves.1, reserves.0),
                        next.1 == reserves.1 + x,
                        (reserves.1 + x) * (reserves.0 - spec_amount_out(
                            x as int,
                            reserves.1,
                            reserves.0,
                        )) >= reserves.1 * reserves.0,
                ;
            }
            SwapOp::Sell(x) => {
                lemma_amount_out_bounds(x as int, reserves.0, reserves.1);
                lemma_swap_product_non_decreasing(x as int, reserves.0, reserves.1);
            }
        }
        lemma_swap_run_preserves_invariant(next, trades.subrange(1, trades.len() as int));
    }
}

} // verus!
