//! The error taxonomy of the marketplace.
//!
//! Every failure is returned synchronously to the caller and leaves all state
//! untouched; there is no retry anywhere in the engine.

use vstd::prelude::*;

verus! {

/// Why a marketplace operation was refused.
///
/// Each operation's contract states exactly which inputs produce which
/// variant, so a caller can correct its input and resubmit.
#[derive(Clone, Copy, Debug, PartialEq, Eq)]
pub enum NftMarketplaceError {
    /// The listing has already been bought or cancelled.
    InactiveListing,
    /// The offer has already been accepted or cancelled.
    InactiveOffer,
    /// The offer's expiry time lies before the execution-time clock.
    ExpiredOffer,
    /// The payment source cannot cover the amount owed.
    InsufficientFunds,
    /// The bid has already been accepted or cancelled.
    InactiveBid,
    /// The bid's expiry time lies before the execution-time clock.
    ExpiredBid,
    /// Reserved by the marketplace interface; no operation signals it.
    BidTooLow,
    /// The party settling a trade does not hold the one unit of the asset.
    NotNftOwner,
    /// A named account does not belong to the party the operation requires.
    InvalidOwnership,
    /// Only the listing's seller may cancel the listing.
    NotSeller,
    /// The registry already exists; it is created once per deployment.
    AlreadyInitialized,
    /// The computed fee exceeds the price, so the seller amount would wrap.
    ArithmeticUnderflow,
    /// A fee rate above the basis-point ceiling of 10000 was refused.
    InvalidFee,
    /// An offer or bid expiry that does not lie in the future was refused.
    InvalidExpiry,
}

} // verus!
