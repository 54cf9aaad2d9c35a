use vstd::prelude::*;
use crate::arith::add_delta;
use crate::errors::AmmError;

verus! {

/// The pool's reserve state: the single source of truth every
/// operation reads and mutates.
///
/// The reserve counters are kept in un-scaled whole units, even
/// though the host scales token amounts by 10^9 when it asks the
/// transfer gateway to move them — an inherited design quirk, kept
/// exactly because changing it would change all pricing math.
#[derive(Clone, Copy, Debug, PartialEq, Eq)]
pub struct Amm {
    /// Balance of the traded token held by the pool, in whole units.
    pub reserve_a: u128,
    /// Balance of the native settlement asset held by the pool, in
    /// its smallest unit.
    pub reserve_sol: u128,
    /// Opaque byte the host uses to re-derive the pool's control
    /// authority; immutable after creation.
    pub bump: u8,
}

/// The slot that holds the one pool of a deployment.
///
/// It starts empty; an external bootstrap step creates the pool
/// exactly once, and every operation on an empty slot fails with
/// [`AmmError::PoolNotInitialized`].
#[derive(Clone, Copy, Debug, PartialEq, Eq)]
pub struct AmmAccount {
    /// `Some` once the creation gate has run [`crate::ops::initialize`].
    pub pool: Option<Amm>,
}

impl AmmAccount {
    /// A deployment slot with no pool created yet.
    pub fn new() -> (acct: AmmAccount)
        ensures
            acct.pool is None,
    {
        AmmAccount { pool: None }
    }
}

impl Amm {
    /// Atomically adds the two signed deltas to the reserves.
    ///
    /// Fails with [`AmmError::Underflow`] — touching neither reserve —
    /// if either resulting balance would be negative. This is the only
    /// function that mutates reserves; every operation goes through it.
    pub fn apply_delta(&mut self, token_delta: i128, settlement_delta: i128) -> (r: Result<(), AmmError>)
        requires
            old(self).reserve_a + token_delta <= u128::MAX,
            old(self).reserve_sol + settlement_delta <= u128::MAX,
        ensures
            old(self).reserve_a + token_delta >= 0 && old(self).reserve_sol + settlement_delta >= 0 ==> {
                &&& r is Ok
                &&& final(self).reserve_a == old(self).reserve_a + token_delta
                &&& final(self).reserve_sol == old(self).reserve_sol + settlement_delta
                &&& final(self).bump == old(self).bump
            },
            old(self).reserve_a + token_delta < 0 || old(self).reserve_sol + settlement_delta < 0 ==> {
                &&& r == Err::<(), AmmError>(AmmError::Underflow)
                &&& *final(self) == *old(self)
            },
    {
        let new_a = add_delta(self.reserve_a, token_delta);
        let new_sol = add_delta(self.reserve_sol, settlement_delta);
        match (new_a, new_sol) {
            (Some(a), Some(sol)) => {
                self.reserve_a = a;
                self.reserve_sol = sol;
                Ok(())
            }
            _ => Err(AmmError::Underflow),
        }
    }
}

} // verus!
