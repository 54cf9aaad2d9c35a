use vstd::prelude::*;
use crate::arith::low_u64;
use crate::errors::AmmError;
use crate::events::ActorId;
use crate::events::LiquidityAdded;
use crate::events::LiquidityRemoved;
use crate::events::TokensBought;
use crate::events::TokensSold;
use crate::gateway::TransferOutcome;
use crate::gateway::both_completed;
use crate::gateway::check_both_completed;
use crate::pool::Amm;
use crate::pool::AmmAccount;
use crate::pricing::get_amount_out;
use crate::pricing::lemma_amount_out_bounds;
use crate::pricing::lemma_amount_out_zero_input;
use crate::pricing::lemma_swap_product_non_decreasing;
use crate::pricing::spec_amount_out;

verus! {

/// Pro-rata settlement payout of a withdrawal: the floored share
/// `token_amount * reserve_sol / reserve_a` of the settlement reserve.
pub open spec fn spec_pro_rata(token_amount: int, reserve_a: int, reserve_sol: int) -> int {
    (token_amount * reserve_sol) / reserve_a
}

/// Creates the pool: both reserves start at zero and the authority
/// byte is recorded. Fails if the slot already holds a pool; the
/// host's bootstrap step calls this exactly once per deployment.
pub fn initialize(acct: &mut AmmAccount, bump: u8) -> (r: Result<(), AmmError>)
    ensures
        old(acct).pool is None ==> {
            &&& r is Ok
            &&& final(acct).pool == Some((Amm { reserve_a: 0u128, reserve_sol: 0u128, bump }))
        },
        old(acct).pool is Some ==> {
            &&& r == Err::<(), AmmError>(AmmError::PoolAlreadyInitialized)
            &&& *final(acct) == *old(acct)
        },
{
    match acct.pool {
        Some(_) => Err(AmmError::PoolAlreadyInitialized),
        None => {
            acct.pool = Some(Amm { reserve_a: 0, reserve_sol: 0, bump });
            Ok(())
        }
    }
}

/// Provision: after the host has moved `amount_a` token units and
/// `sol_amount` settlement units from the provider into the pool's
/// custody, credits both reserves and reports the event to emit.
///
/// The deposited ratio is deliberately not held to the current
/// reserve ratio — an inherited design gap, preserved as specified.
/// If either transfer leg was rejected, the reserves are left exactly
/// as they were.
pub fn add_liquidity(
    acct: &mut AmmAccount,
    provider: ActorId,
    amount_a: u64,
    sol_amount: u64,
    token_leg: TransferOutcome,
    sol_leg: TransferOutcome,
) -> (r: Result<LiquidityAdded, AmmError>)
    requires
        old(acct).pool matches Some(p) ==> {
            &&& p.reserve_a + amount_a <= u128::MAX
            &&& p.reserve_sol + sol_amount <= u128::MAX
        },
    ensures
        old(acct).pool is None ==> {
            &&& r == Err::<LiquidityAdded, AmmError>(AmmError::PoolNotInitialized)
            &&& *final(acct) == *old(acct)
        },
        old(acct).pool matches Some(p) ==> {
            &&& !both_completed(token_leg, sol_leg) ==> {
                &&& r == Err::<LiquidityAdded, AmmError>(AmmError::TransferFailed)
                &&& *final(acct) == *old(acct)
            }
            &&& both_completed(token_leg, sol_leg) ==> {
                &&& r == Ok::<LiquidityAdded, AmmError>((LiquidityAdded { provider, amount_a, amount_sol: sol_amount }))
                &&& final(acct).pool == Some((Amm {
                    reserve_a: (p.reserve_a + amount_a) as u128,
                    reserve_sol: (p.reserve_sol + sol_amount) as u128,
                    bump: p.bump,
                }))
            }
        },
{
    let pool = match acct.pool {
        None => {
            return Err(AmmError::PoolNotInitialized);
        }
        Some(p) => p,
    };
    if !check_both_completed(token_leg, sol_leg) {
        return Err(AmmError::TransferFailed);
    }
    let mut new_pool = pool;
    let applied = new_pool.apply_delta(amount_a as i128, sol_amount as i128);
    match applied {
        Ok(()) => {
            acct.pool = Some(new_pool);
            Ok(LiquidityAdded { provider, amount_a, amount_sol: sol_amount })
        }
        Err(e) => Err(e),
    }
}

/// Withdrawal: burns `amount_a` token units of liquidity and pays out
/// the pro-rata settlement share [`spec_pro_rata`], computed from the
/// reserves as they stood before the call.
///
/// The host must have moved both payouts (token and settlement) out
/// of the pool's custody before this commits; if either leg was
/// rejected, the reserves are left exactly as they were. The returned
/// value is the full-width settlement payout; the event narrows it to
/// 64 bits.
pub fn remove_liquidity(
    acct: &mut AmmAccount,
    provider: ActorId,
    amount_a: u64,
    token_leg: TransferOutcome,
    sol_leg: TransferOutcome,
) -> (r: Result<(u128, LiquidityRemoved), AmmError>)
    requires
        old(acct).pool matches Some(p) ==> {
            &&& amount_a * p.reserve_sol <= i128::MAX
            &&& (amount_a == 0 ==> p.reserve_a > 0)
        },
    ensures
        old(acct).pool is None ==> {
            &&& r == Err::<(u128, LiquidityRemoved), AmmError>(AmmError::PoolNotInitialized)
            &&& *final(acct) == *old(acct)
        },
        old(acct).pool matches Some(p) ==> {
            let sol_out = spec_pro_rata(amount_a as int, p.reserve_a as int, p.reserve_sol as int);
            &&& p.reserve_a < amount_a ==> {
                &&& r == Err::<(u128, LiquidityRemoved), AmmError>(AmmError::InsufficientLiquidityA)
                &&& *final(acct) == *old(acct)
            }
            &&& amount_a <= p.reserve_a && p.reserve_sol < sol_out ==> {
                &&& r == Err::<(u128, LiquidityRemoved), AmmError>(AmmError::InsufficientLiquiditySol)
                &&& *final(acct) == *old(acct)
            }
            &&& amount_a <= p.reserve_a && sol_out <= p.reserve_sol && !both_completed(token_leg, sol_leg) ==> {
                &&& r == Err::<(u128, LiquidityRemoved), AmmError>(AmmError::TransferFailed)
                &&& *final(acct) == *old(acct)
            }
            &&& amount_a <= p.reserve_a && sol_out <= p.reserve_sol && both_completed(token_leg, sol_leg) ==> {
                &&& r == Ok::<(u128, LiquidityRemoved), AmmError>(((sol_out as u128), (LiquidityRemoved {
                    provider,
                    amount_a,
                    amount_sol: low_u64(sol_out),
                })))
                &&& final(acct).pool == Some((Amm {
                    reserve_a: (p.reserve_a - amount_a) as u128,
                    reserve_sol: (p.reserve_sol - sol_out) as u128,
                    bump: p.bump,
                }))
            }
        },
{
    let pool = match acct.pool {
        None => {
            return Err(AmmError::PoolNotInitialized);
        }
        Some(p) => p,
    };
    if pool.reserve_a < amount_a as u128 {
        return Err(AmmError::InsufficientLiquidityA);
    }
    proof {
        vstd::arithmetic::mul::lemma_mul_nonnegative(amount_a as int, pool.reserve_sol as int);
        crate::arith::lemma_mul_div_le(amount_a as int, pool.reserve_sol as int, pool.reserve_a as int);
        vstd::arithmetic::div_mod::lemma_div_is_ordered_by_denominator(
            amount_a as int * pool.reserve_sol as int,
            1,
            pool.reserve_a as int,
        );
    }
    let sol_amount = (amount_a as u128 * pool.reserve_sol) / pool.reserve_a;
    if pool.reserve_sol < sol_amount {
        return Err(AmmError::InsufficientLiquiditySol);
    }
    if !check_both_completed(token_leg, sol_leg) {
        return Err(AmmError::TransferFailed);
    }
    let mut new_pool = pool;
    let applied = new_pool.apply_delta(-(amount_a as i128), -(sol_amount as i128));
    match applied {
        Ok(()) => {
            acct.pool = Some(new_pool);
            let amount_sol = #[verifier::truncate] (sol_amount as u64);
            Ok((sol_amount, LiquidityRemoved { provider, amount_a, amount_sol }))
        }
        Err(e) => Err(e),
    }
}

/// Buy: after the host has moved `sol_amount` settlement units from
/// the buyer into the pool, quotes the token payout against the
/// reserves as they stood before this trade's deposit, and commits
/// `reserve_sol += sol_amount`, `reserve_a -= token_out`.
///
/// The fee-adjusted reserve product never decreases across the
/// commit. If either transfer leg was rejected, the reserves are left
/// exactly as they were. The returned value is the full-width token
/// payout; the event narrows it to 64 bits.
pub fn buy(
    acct: &mut AmmAccount,
    buyer: ActorId,
    sol_amount: u64,
    sol_leg: TransferOutcome,
    token_leg: TransferOutcome,
) -> (r: Result<(u128, TokensBought), AmmError>)
    requires
        old(acct).pool matches Some(p) ==> {
            &&& sol_amount * 997 * p.reserve_a <= u128::MAX
            &&& p.reserve_sol * 1000 + sol_amount * 997 <= u128::MAX
        },
    ensures
        old(acct).pool is None ==> {
            &&& r == Err::<(u128, TokensBought), AmmError>(AmmError::PoolNotInitialized)
            &&& *final(acct) == *old(acct)
        },
        old(acct).pool matches Some(p) ==> {
            let token_out = spec_amount_out(sol_amount as int, p.reserve_sol as int, p.reserve_a as int);
            &&& !both_completed(sol_leg, token_leg) ==> {
                &&& r == Err::<(u128, TokensBought), AmmError>(AmmError::TransferFailed)
                &&& *final(acct) == *old(acct)
            }
            &&& both_completed(sol_leg, token_leg) ==> {
                &&& r == Ok::<(u128, TokensBought), AmmError>(((token_out as u128), (TokensBought {
                    buyer,
                    amount_sol: sol_amount,
                    amount_a: low_u64(token_out),
                })))
                &&& final(acct).pool == Some((Amm {
                    reserve_a: (p.reserve_a - token_out) as u128,
                    reserve_sol: (p.reserve_sol + sol_amount) as u128,
                    bump: p.bump,
                }))
                &&& 0 <= token_out <= p.reserve_a
                &&& (p.reserve_a - token_out) * (p.reserve_sol + sol_amount) >= p.reserve_a * p.reserve_sol
            }
        },
{
    let pool = match acct.pool {
        None => {
            return Err(AmmError::PoolNotInitialized);
        }
        Some(p) => p,
    };
    if !check_both_completed(sol_leg, token_leg) {
        return Err(AmmError::TransferFailed);
    }
    let token_amount = get_amount_out(sol_amount as u128, pool.reserve_sol, pool.reserve_a);
    proof {
        let x = sol_amount as int;
        let ra = pool.reserve_a as int;
        let rs = pool.reserve_sol as int;
        lemma_amount_out_bounds(x, rs, ra);
        if x == 0 {
            lemma_amount_out_zero_input(rs, ra);
        } else {
            assert(997 * ra <= x * 997 * ra) by (nonlinear_arith)
                requires
                    x >= 1,
                    ra >= 0,
            ;
        }
        lemma_swap_product_non_decreasing(x, rs, ra);
        let token_out = spec_amount_out(x, rs, ra);
        assert((ra - token_out) * (rs + x) >= ra * rs) by (nonlinear_arith)
            requires
                (rs + x) * (ra - token_out) >= rs * ra,
        ;
    }
    let mut new_pool = pool;
    let applied = new_pool.apply_delta(-(token_amount as i128), sol_amount as i128);
    match applied {
        Ok(()) => {
            acct.pool = Some(new_pool);
            let amount_a = #[verifier::truncate] (token_amount as u64);
            Ok((token_amount, TokensBought { buyer, amount_sol: sol_amount, amount_a }))
        }
        Err(e) => Err(e),
    }
}

/// Sell: after the host has moved `amount_a` token units from the
/// seller into the pool, quotes the settlement payout against the
/// reserves as they stood before this trade's deposit, and commits
/// `reserve_a += amount_a`, `reserve_sol -= sol_out`.
///
/// The fee-adjusted reserve product never decreases across the
/// commit. If either transfer leg was rejected, the reserves are left
/// exactly as they were. The returned value is the full-width
/// settlement payout; the event narrows it to 64 bits.
pub fn sell(
    acct: &mut AmmAccount,
    seller: ActorId,
    amount_a: u64,
    token_leg: TransferOutcome,
    sol_leg: TransferOutcome,
) -> (r: Result<(u128, TokensSold), AmmError>)
    requires
        old(acct).pool matches Some(p) ==> {
            &&& amount_a * 997 * p.reserve_sol <= u128::MAX
            &&& p.reserve_a * 1000 + amount_a * 997 <= u128::MAX
        },
    ensures
        old(acct).pool is None ==> {
            &&& r == Err::<(u128, TokensSold), AmmError>(AmmError::PoolNotInitialized)
            &&& *final(acct) == *old(acct)
        },
        old(acct).pool matches Some(p) ==> {
            let sol_out = spec_amount_out(amount_a as int, p.reserve_a as int, p.reserve_sol as int);
            &&& !both_completed(token_leg, sol_leg) ==> {
                &&& r == Err::<(u128, TokensSold), AmmError>(AmmError::TransferFailed)
                &&& *final(acct) == *old(acct)
            }
            &&& both_completed(token_leg, sol_leg) ==> {
                &&& r == Ok::<(u128, TokensSold), AmmError>(((sol_out as u128), (TokensSold {
                    seller,
                    amount_a,
                    amount_sol: low_u64(sol_out),
                })))
                &&& final(acct).pool == Some((Amm {
                    reserve_a: (p.reserve_a + amount_a) as u128,
                    reserve_sol: (p.reserve_sol - sol_out) as u128,
                    bump: p.bump,
                }))
                &&& 0 <= sol_out <= p.reserve_sol
                &&& (p.reserve_a + amount_a) * (p.reserve_sol - sol_out) >= p.reserve_a * p.reserve_sol
            }
        },
{
    let pool = match acct.pool {
        None => {
            return Err(AmmError::PoolNotInitialized);
        }
        Some(p) => p,
    };
    if !check_both_completed(token_leg, sol_leg) {
        return Err(AmmError::TransferFailed);
    }
    let sol_amount = get_amount_out(amount_a as u128, pool.reserve_a, pool.reserve_sol);
    proof {
        let x = amount_a as int;
        let ra = pool.reserve_a as int;
        let rs = pool.reserve_sol as int;
        lemma_amount_out_bounds(x, ra, rs);
        if x == 0 {
            lemma_amount_out_zero_input(ra, rs);
        } else {
            assert(997 * rs <= x * 997 * rs) by (nonlinear_arith)
                requires
                    x >= 1,
                    rs >= 0,
            ;
        }
        lemma_swap_product_non_decreasing(x, ra, rs);
    }
    let mut new_pool = pool;
    let applied = new_pool.apply_delta(amount_a as i128, -(sol_amount as i128));
    match applied {
        Ok(()) => {
            acct.pool = Some(new_pool);
            let amount_sol = #[verifier::truncate] (sol_amount as u64);
            Ok((sol_amount, TokensSold { seller, amount_a, amount_sol }))
        }
        Err(e) => Err(e),
    }
}

/// Spot price: the integer-truncated ratio `reserve_sol / reserve_a`,
/// narrowed to 64 bits. An approximate read only — not settlement
/// math. Fails while either reserve is empty.
pub fn get_price(acct: &AmmAccount) -> (r: Result<u64, AmmError>)
    ensures
        acct.pool is None ==> r == Err::<u64, AmmError>(AmmError::PoolNotInitialized),
        acct.pool matches Some(p) ==> {
            &&& p.reserve_a == 0 || p.reserve_sol == 0 ==> r == Err::<u64, AmmError>(
                AmmError::InsufficientLiquidity,
            )
            &&& p.reserve_a > 0 && p.reserve_sol > 0 ==> r == Ok::<u64, AmmError>(
                low_u64(p.reserve_sol as int / p.reserve_a as int),
            )
        },
{
    match acct.pool {
        None => Err(AmmError::PoolNotInitialized),
        Some(p) => {
            if p.reserve_a == 0 || p.reserve_sol == 0 {
                Err(AmmError::InsufficientLiquidity)
            } else {
                let price = #[verifier::truncate] ((p.reserve_sol / p.reserve_a) as u64);
                Ok(price)
            }
        }
    }
}

/// Prices a withdrawal without touching the pool: the pro-rata
/// settlement payout [`spec_pro_rata`] the host must ask the transfer
/// gateway to move before committing [`remove_liquidity`].
pub fn quote_remove_liquidity(acct: &AmmAccount, amount_a: u64) -> (r: Result<u128, AmmError>)
    requires
        acct.pool matches Some(p) ==> {
            &&& amount_a * p.reserve_sol <= u128::MAX
            &&& (amount_a == 0 ==> p.reserve_a > 0)
        },
    ensures
        acct.pool is None ==> r == Err::<u128, AmmError>(AmmError::PoolNotInitialized),
        acct.pool matches Some(p) ==> {
            let sol_out = spec_pro_rata(amount_a as int, p.reserve_a as int, p.reserve_sol as int);
            &&& p.reserve_a < amount_a ==> r == Err::<u128, AmmError>(AmmError::InsufficientLiquidityA)
            &&& amount_a <= p.reserve_a ==> r == Ok::<u128, AmmError>((sol_out as u128))
        },
{
    match acct.pool {
        None => Err(AmmError::PoolNotInitialized),
        Some(p) => {
            if p.reserve_a < amount_a as u128 {
                Err(AmmError::InsufficientLiquidityA)
            } else {
                proof {
                    vstd::arithmetic::mul::lemma_mul_nonnegative(amount_a as int, p.reserve_sol as int);
                    crate::arith::lemma_mul_div_le(amount_a as int, p.reserve_sol as int, p.reserve_a as int);
                }
                Ok((amount_a as u128 * p.reserve_sol) / p.reserve_a)
            }
        }
    }
}

/// The amount the host hands the transfer gateway for a token move:
/// the whole-unit amount scaled by the token's 10^9 decimal
/// precision. The reserve counters themselves stay un-scaled — an
/// inherited asymmetry, kept because changing it would change all
/// pricing math.
pub fn scaled_amount(amount_a: u64) -> (r: u128)
    ensures
        r == amount_a * 1_000_000_000,
{
    amount_a as u128 * 1_000_000_000
}

} // verus!
