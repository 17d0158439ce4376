//! The record types of the state machine.
//!
//! Each record is keyed deterministically from the asset and the principals it
//! names, so its address is reproducible without a lookup table; the
//! derivation nonce of that scheme is stored as `bump`. Principals and assets
//! appear here as the plain identifiers the substrate derives keys from. A
//! record is created once and its `active` flag flips true to false exactly
//! once; no record is reused.

use vstd::prelude::*;

verus! {

/// The basis-point ceiling: a fee of 10000 basis points is 100%.
pub const FEE_BASIS_POINTS_MAX: u64 = 10000;

/// The global registry: one per deployment, read by every settlement.
#[derive(Clone, Copy, Debug, PartialEq, Eq)]
pub struct Marketplace {
    /// The principal that created the registry.
    pub authority: u64,
    /// The marketplace fee in basis points.
    pub fee: u64,
    /// The principal whose balance receives every fee.
    pub treasury: u64,
    /// The derivation nonce of the registry's address.
    pub bump: u8,
}

impl Marketplace {
    /// A registry is well formed when its fee respects the basis-point
    /// ceiling, which `initialize_marketplace` enforces at creation.
    pub open spec fn wf(self) -> bool {
        self.fee <= FEE_BASIS_POINTS_MAX
    }
}

/// A fixed-price sale offer for one unit of an asset by its holder.
///
/// Keyed by `(mint, seller)`. A listing never escrows funds.
#[derive(Clone, Copy, Debug, PartialEq, Eq)]
pub struct Listing {
    /// The holder that put the asset up for sale.
    pub seller: u64,
    /// The asset on sale.
    pub mint: u64,
    /// The fixed sale price.
    pub price: u64,
    /// True until the listing is bought or cancelled.
    pub active: bool,
    /// The clock reading when the listing was created.
    pub created_at: i64,
    /// The derivation nonce of the listing's address.
    pub bump: u8,
}

/// A buyer-initiated, time-bounded purchase proposal with funds escrowed.
///
/// Keyed by `(mint, buyer)`. While the offer is active, a balance of exactly
/// `price` sits under the offer's derived escrow address.
#[derive(Clone, Copy, Debug, PartialEq, Eq)]
pub struct Offer {
    /// The principal proposing to buy, whose funds are escrowed.
    pub buyer: u64,
    /// The asset the offer names.
    pub mint: u64,
    /// The proposed price, equal to the escrowed balance while active.
    pub price: u64,
    /// The clock reading when the offer was created.
    pub created_at: i64,
    /// The last clock reading at which the offer may still be accepted.
    pub expires_at: i64,
    /// True until the offer is accepted or cancelled.
    pub active: bool,
    /// The derivation nonce of the offer's address.
    pub bump: u8,
}

/// A seller-facing counter-offer, structurally identical to an [`Offer`].
///
/// Keyed by `(mint, bidder)` in a namespace of its own, so one party can hold
/// an offer and a bid on the same asset at once.
#[derive(Clone, Copy, Debug, PartialEq, Eq)]
pub struct Bid {
    /// The principal bidding, whose funds are escrowed.
    pub bidder: u64,
    /// The asset the bid names.
    pub mint: u64,
    /// The bid price, equal to the escrowed balance while active.
    pub price: u64,
    /// The clock reading when the bid was created.
    pub created_at: i64,
    /// The last clock reading at which the bid may still be accepted.
    pub expires_at: i64,
    /// True until the bid is accepted or cancelled.
    pub active: bool,
    /// The derivation nonce of the bid's address.
    pub bump: u8,
}

/// A holding account for units of one asset, owned by one principal.
///
/// The substrate enforces that only `owner` (or the engine itself, for
/// escrowed holdings) may debit it; the engine reads these three fields.
#[derive(Clone, Copy, Debug, PartialEq, Eq)]
pub struct AssetAccount {
    /// The principal the holding belongs to.
    pub owner: u64,
    /// The asset the holding is denominated in.
    pub mint: u64,
    /// How many units the account holds; a unique asset has supply one.
    pub amount: u64,
}

} // verus!
