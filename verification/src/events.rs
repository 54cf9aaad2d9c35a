use vstd::prelude::*;

verus! {

/// Identity of the caller an operation acted for, as the host's
/// 32-byte account key. The core trusts that the surrounding system
/// has already authenticated it.
#[derive(Clone, Copy, Debug, PartialEq, Eq)]
pub struct ActorId(pub [u8; 32]);

/// Record of a completed provision, for the host's event sink.
#[derive(Clone, Copy, Debug, PartialEq, Eq)]
pub struct LiquidityAdded {
    /// Who provided the liquidity.
    pub provider: ActorId,
    /// Token units moved into the pool.
    pub amount_a: u64,
    /// Settlement units moved into the pool.
    pub amount_sol: u64,
}

/// Record of a completed withdrawal, for the host's event sink.
#[derive(Clone, Copy, Debug, PartialEq, Eq)]
pub struct LiquidityRemoved {
    /// Who withdrew the liquidity.
    pub provider: ActorId,
    /// Token units paid out of the pool.
    pub amount_a: u64,
    /// Settlement units paid out, narrowed to 64 bits.
    pub amount_sol: u64,
}

/// Record of a completed buy, for the host's event sink.
#[derive(Clone, Copy, Debug, PartialEq, Eq)]
pub struct TokensBought {
    /// Who bought.
    pub buyer: ActorId,
    /// Settlement units paid in.
    pub amount_sol: u64,
    /// Token units received, narrowed to 64 bits.
    pub amount_a: u64,
}

/// Record of a completed sell, for the host's event sink.
#[derive(Clone, Copy, Debug, PartialEq, Eq)]
pub struct TokensSold {
    /// Who sold.
    pub seller: ActorId,
    /// Token units paid in.
    pub amount_a: u64,
    /// Settlement units received, narrowed to 64 bits.
    pub amount_sol: u64,
}

} // verus!
