//! Accounting and pricing core of a two-asset constant-product
//! automated market maker.
//!
//! The pool holds two reserves — a fungible token and the native
//! settlement asset — and exposes provision, withdrawal, buy and sell
//! operations governed by a constant-product rule with a fixed 0.3%
//! trading fee. Asset movement, authorization and event delivery are
//! the host's business: the operations here take the outcome of each
//! requested transfer leg as an argument and mutate the reserves only
//! when every leg has completed, so a failed leg leaves the pool
//! exactly as it was.
//!
//! A documented quirk of the accounting: the stored reserve counters
//! are kept in un-scaled whole units, while the host scales token
//! amounts by 10^9 (the token's decimal precision) when it asks the
//! transfer gateway to move them. [`ops::scaled_amount`] is the one
//! place that scaling rule lives.

pub mod arith;
pub mod errors;
pub mod events;
pub mod gateway;
pub mod laws;
pub mod ops;
pub mod pool;
pub mod pricing;
