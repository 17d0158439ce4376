//! The fixed-price listing flow: list, cancel, buy.
//!
//! A listing never escrows funds; `buy` pays the seller and the treasury out
//! of the buyer's live balance and moves the one unit of the asset to the
//! buyer, all in one transition. Each operation either performs its whole
//! effect or returns an error and leaves every account exactly as it was.

use vstd::prelude::*;
use crate::errors::NftMarketplaceError;
use crate::fees::{fee_amount_spec, seller_amount_spec, split_price};
use crate::records::{AssetAccount, Listing, Marketplace};

verus! {

/// The accounts a caller supplies to list an asset for sale.
#[derive(Clone, Copy, Debug, PartialEq, Eq)]
pub struct ListNft {
    /// The principal putting the asset up for sale.
    pub seller: u64,
    /// The asset to sell.
    pub mint: u64,
    /// The seller's holding of the asset, which must be exactly one unit.
    pub seller_token_account: AssetAccount,
    /// The derivation nonce of the listing's address.
    pub bump: u8,
}

/// The accounts a caller supplies to cancel a listing.
#[derive(Clone, Copy, Debug, PartialEq, Eq)]
pub struct CancelListing {
    /// The listing to cancel.
    pub listing: Listing,
    /// The principal asking to cancel, who must be the listing's seller.
    pub seller: u64,
}

/// The accounts a caller supplies to buy a listed asset.
#[derive(Clone, Copy, Debug, PartialEq, Eq)]
pub struct BuyNft {
    /// The registry, read for the fee rate.
    pub marketplace: Marketplace,
    /// The listing being bought.
    pub listing: Listing,
    /// The principal buying the asset.
    pub buyer: u64,
    /// The buyer's spendable balance, the payment source of a buy.
    pub buyer_balance: u64,
    /// The balance of the listing's seller.
    pub seller_balance: u64,
    /// The balance of the registry's treasury.
    pub treasury_balance: u64,
    /// The seller's holding of the listed asset.
    pub seller_token_account: AssetAccount,
    /// The buyer's receiving account for the asset. When
    /// `buyer_token_account_exists` is false, the substrate creates it during
    /// the buy and these stored fields are meaningless until then.
    pub buyer_token_account: AssetAccount,
    /// Whether the buyer's receiving account already exists.
    pub buyer_token_account_exists: bool,
    /// What the substrate charges to create a receiving account; a buy
    /// charges it to the buyer.
    pub account_creation_cost: u64,
}

/// Why `list` refuses its input, or `None` if it succeeds.
pub open spec fn list_error(ctx: ListNft) -> Option<NftMarketplaceError> {
    if ctx.seller_token_account.owner != ctx.seller
        || ctx.seller_token_account.mint != ctx.mint
        || ctx.seller_token_account.amount != 1 {
        Some(NftMarketplaceError::InvalidOwnership)
    } else {
        None
    }
}

/// The listing record `list` creates on success.
pub open spec fn list_record(ctx: ListNft, price: u64, now: i64) -> Listing {
    Listing {
        seller: ctx.seller,
        mint: ctx.mint,
        price: price,
        active: true,
        created_at: now,
        bump: ctx.bump,
    }
}

/// Puts one unit of an asset up for sale at a fixed price.
///
/// Requires the caller to custody exactly one unit of the named asset in
/// `ctx.seller_token_account`; fails with `InvalidOwnership` otherwise. No
/// funds move. The auction-house fee argument is accepted and ignored, as the
/// fee applied at settlement always comes from the registry.
#[allow(unused_variables)]
pub fn list(
    ctx: &ListNft,
    price: u64,
    auction_house_fee: u64,
    now: i64,
) -> (r: Result<Listing, NftMarketplaceError>)
    ensures
        match r {
            Ok(l) => list_error(*ctx) is None && l == list_record(*ctx, price, now),
            Err(e) => list_error(*ctx) == Some(e),
        },
{
    if ctx.seller_token_account.owner != ctx.seller
        || ctx.seller_token_account.mint != ctx.mint
        || ctx.seller_token_account.amount != 1 {
        return Err(NftMarketplaceError::InvalidOwnership);
    }
    Ok(Listing {
        seller: ctx.seller,
        mint: ctx.mint,
        price: price,
        active: true,
        created_at: now,
        bump: ctx.bump,
    })
}

/// Why `cancel_listing` refuses its input, or `None` if it succeeds.
pub open spec fn cancel_listing_error(ctx: CancelListing) -> Option<NftMarketplaceError> {
    if ctx.seller != ctx.listing.seller {
        Some(NftMarketplaceError::NotSeller)
    } else if !ctx.listing.active {
        Some(NftMarketplaceError::InactiveListing)
    } else {
        None
    }
}

/// The state `cancel_listing` leaves on success: the listing consumed,
/// everything else untouched.
pub open spec fn cancel_listing_post(ctx: CancelListing) -> CancelListing {
    CancelListing { listing: Listing { active: false, ..ctx.listing }, ..ctx }
}

/// Takes a listing off the market.
///
/// Only the listing's seller may cancel, and only while the listing is
/// active; the active flag flips to false and nothing else changes. A
/// listing never holds escrow, so no funds move.
pub fn cancel_listing(ctx: &mut CancelListing) -> (r: Result<(), NftMarketplaceError>)
    ensures
        match r {
            Ok(()) => cancel_listing_error(*old(ctx)) is None
                && *final(ctx) == cancel_listing_post(*old(ctx)),
            Err(e) => cancel_listing_error(*old(ctx)) == Some(e) && *final(ctx) == *old(ctx),
        },
{
    if ctx.seller != ctx.listing.seller {
        return Err(NftMarketplaceError::NotSeller);
    }
    if !ctx.listing.active {
        return Err(NftMarketplaceError::InactiveListing);
    }
    ctx.listing.active = false;
    Ok(())
}

/// What a buy debits from the buyer: the price, plus the cost of creating
/// the buyer's receiving account when it does not exist yet.
pub open spec fn buy_owed(ctx: BuyNft) -> int {
    ctx.listing.price + if ctx.buyer_token_account_exists {
        0int
    } else {
        ctx.account_creation_cost as int
    }
}

/// Why `buy` refuses its input, or `None` if it succeeds.
pub open spec fn buy_error(ctx: BuyNft) -> Option<NftMarketplaceError> {
    if !ctx.listing.active {
        Some(NftMarketplaceError::InactiveListing)
    } else if ctx.seller_token_account.owner != ctx.listing.seller
        || ctx.seller_token_account.mint != ctx.listing.mint
        || ctx.seller_token_account.amount != 1 {
        Some(NftMarketplaceError::NotNftOwner)
    } else if ctx.buyer_token_account_exists
        && (ctx.buyer_token_account.owner != ctx.buyer
            || ctx.buyer_token_account.mint != ctx.listing.mint) {
        Some(NftMarketplaceError::InvalidOwnership)
    } else if fee_amount_spec(ctx.listing.price, ctx.marketplace.fee) > ctx.listing.price {
        Some(NftMarketplaceError::ArithmeticUnderflow)
    } else if ctx.buyer_balance < buy_owed(ctx) {
        Some(NftMarketplaceError::InsufficientFunds)
    } else {
        None
    }
}

/// The buyer's holding of the asset after a successful buy.
pub open spec fn buy_receiver_account(ctx: BuyNft) -> AssetAccount {
    AssetAccount {
        owner: ctx.buyer,
        mint: ctx.listing.mint,
        amount: if ctx.buyer_token_account_exists {
            (ctx.buyer_token_account.amount + 1) as u64
        } else {
            1u64
        },
    }
}

/// The state a successful buy leaves: price split between seller and
/// treasury, the asset moved to the buyer, the listing consumed.
pub open spec fn buy_post(ctx: BuyNft) -> BuyNft {
    let price = ctx.listing.price;
    let fee_bps = ctx.marketplace.fee;
    BuyNft {
        listing: Listing { active: false, ..ctx.listing },
        buyer_balance: (ctx.buyer_balance - buy_owed(ctx)) as u64,
        seller_balance: (ctx.seller_balance + seller_amount_spec(price, fee_bps)) as u64,
        treasury_balance: (ctx.treasury_balance + fee_amount_spec(price, fee_bps)) as u64,
        seller_token_account: AssetAccount { amount: 0, ..ctx.seller_token_account },
        buyer_token_account: buy_receiver_account(ctx),
        ..ctx
    }
}

/// The machine limits a buy rests on: the balances it credits sum within a
/// word, and the receiving account has room for one more unit.
pub open spec fn buy_fits(ctx: BuyNft) -> bool {
    &&& ctx.buyer_balance + ctx.seller_balance + ctx.treasury_balance <= u64::MAX
    &&& (ctx.buyer_token_account_exists ==> ctx.buyer_token_account.amount < u64::MAX)
}

/// Buys a listed asset at its fixed price.
///
/// Checks, in order: the listing is active; the seller still custodies the
/// one unit of the asset; the buyer's receiving account, if it exists,
/// belongs to the buyer and the listed asset; the fee split does not exceed
/// the price; and the buyer can cover the price plus, when the receiving
/// account must be created, its creation cost. Each check failing returns
/// its error with no effect. On success the seller amount and the fee are
/// paid out of the buyer's balance, the asset moves to the buyer, and the
/// listing's active flag flips to false — an identical second submission
/// then fails with `InactiveListing` and moves nothing.
pub fn buy(ctx: &mut BuyNft) -> (r: Result<(), NftMarketplaceError>)
    requires
        buy_fits(*old(ctx)),
    ensures
        match r {
            Ok(()) => buy_error(*old(ctx)) is None && *final(ctx) == buy_post(*old(ctx)),
            Err(e) => buy_error(*old(ctx)) == Some(e) && *final(ctx) == *old(ctx),
        },
{
    if !ctx.listing.active {
        return Err(NftMarketplaceError::InactiveListing);
    }
    if ctx.seller_token_account.owner != ctx.listing.seller
        || ctx.seller_token_account.mint != ctx.listing.mint
        || ctx.seller_token_account.amount != 1 {
        return Err(NftMarketplaceError::NotNftOwner);
    }
    if ctx.buyer_token_account_exists
        && (ctx.buyer_token_account.owner != ctx.buyer
            || ctx.buyer_token_account.mint != ctx.listing.mint) {
        return Err(NftMarketplaceError::InvalidOwnership);
    }
    let amounts = match split_price(ctx.listing.price, ctx.marketplace.fee) {
        Ok(a) => a,
        Err(e) => {
            return Err(e);
        },
    };
    let creation_cost: u64 = if ctx.buyer_token_account_exists {
        0
    } else {
        ctx.account_creation_cost
    };
    let owed: u128 = ctx.listing.price as u128 + creation_cost as u128;
    if (ctx.buyer_balance as u128) < owed {
        return Err(NftMarketplaceError::InsufficientFunds);
    }
    let received: u64 = if ctx.buyer_token_account_exists {
        ctx.buyer_token_account.amount + 1
    } else {
        1
    };
    ctx.buyer_balance = ctx.buyer_balance - owed as u64;
    ctx.seller_balance = ctx.seller_balance + amounts.1;
    ctx.treasury_balance = ctx.treasury_balance + amounts.0;
    ctx.seller_token_account.amount = 0;
    ctx.buyer_token_account = AssetAccount {
        owner: ctx.buyer,
        mint: ctx.listing.mint,
        amount: received,
    };
    ctx.listing.active = false;
    Ok(())
}

/// A successful buy consumes its listing: the active flag is false after.
pub proof fn lemma_buy_consumes_listing(ctx: BuyNft)
    requires
        buy_error(ctx) is None,
    ensures
        !buy_post(ctx).listing.active,
{
}

/// A consumed listing supports no further buy: whatever the other accounts
/// hold, the attempt fails with `InactiveListing`, so no funds or asset can
/// move twice for one listing.
pub proof fn lemma_consumed_listing_rejects_buy(ctx: BuyNft)
    requires
        !ctx.listing.active,
    ensures
        buy_error(ctx) == Some(NftMarketplaceError::InactiveListing),
{
}

/// A consumed listing cannot be cancelled either: the seller's own attempt
/// fails with `InactiveListing`.
pub proof fn lemma_consumed_listing_rejects_cancel(ctx: CancelListing)
    requires
        !ctx.listing.active,
        ctx.seller == ctx.listing.seller,
    ensures
        cancel_listing_error(ctx) == Some(NftMarketplaceError::InactiveListing),
{
}

/// A buy conserves funds: across the three balances it touches, exactly the
/// creation cost of a missing receiving account leaves the system (paid to
/// the substrate), and nothing else is minted or lost — the price only moves
/// from the buyer to the seller and the treasury.
pub proof fn lemma_buy_conserves_funds(ctx: BuyNft)
    requires
        buy_error(ctx) is None,
        buy_fits(ctx),
    ensures
        buy_post(ctx).buyer_balance + buy_post(ctx).seller_balance
            + buy_post(ctx).treasury_balance
            == ctx.buyer_balance + ctx.seller_balance + ctx.treasury_balance
                - (buy_owed(ctx) - ctx.listing.price),
{
}

/// Of two submissions racing on one listing, at most one settles: once the
/// first buy succeeds, a second buy against the listing it left behind fails
/// with `InactiveListing`, whatever accounts the second submission names.
pub proof fn lemma_listing_settles_at_most_once(first: BuyNft, second: BuyNft)
    requires
        buy_error(first) is None,
        second.listing == buy_post(first).listing,
    ensures
        buy_error(second) == Some(NftMarketplaceError::InactiveListing),
{
}

} // verus!
