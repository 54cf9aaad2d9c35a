use vstd::prelude::*;

verus! {

/// Failure reasons surfaced by the pool operations.
///
/// Every failure aborts the whole operation: the caller receives one
/// of these and no reserve movement has occurred.
#[derive(Clone, Copy, Debug, PartialEq, Eq)]
pub enum AmmError {
    /// The pool's token reserve cannot cover a requested withdrawal.
    InsufficientLiquidityA,
    /// The pool's settlement reserve cannot cover the pro-rata payout.
    InsufficientLiquiditySol,
    /// A price was requested while one of the reserves is empty.
    InsufficientLiquidity,
    /// A reserve decrement would take a balance below zero.
    Underflow,
    /// The transfer gateway rejected one of the requested asset moves.
    TransferFailed,
    /// An operation was attempted before the pool was created.
    PoolNotInitialized,
    /// Pool creation was attempted a second time.
    PoolAlreadyInitialized,
}

} // verus!
