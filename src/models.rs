use crate::address::Address;
use vstd::prelude::*;

verus! {

/// Seconds that must pass after an offer is created before it can be settled
/// (five days).
pub const OFFER_LOCK_WINDOW: i64 = 432000;

/// One escrow's terms: what the maker locked and what it asks in return.
#[derive(Debug, Clone, Copy)]
pub struct EscrowOffer {
    pub seed: u64,
    pub maker: Address,
    pub mint_a: Address,
    pub mint_b: Address,
    pub receive: u64,
    pub created_at: i64,
    pub bump: u8,
}

/// A balance of one asset held for one owner.
#[derive(Debug, Clone, Copy)]
pub struct TokenAccount {
    pub mint: Address,
    pub owner: Address,
    pub amount: u64,
}

/// An asset type and its decimal precision.
#[derive(Debug, Clone, Copy)]
pub struct Mint {
    pub decimals: u8,
}

/// Whether an offer created at `created_at` may be settled at `now`.
pub open spec fn unlocked(created_at: i64, now: i64) -> bool {
    created_at + OFFER_LOCK_WINDOW <= now
}

} // verus!
