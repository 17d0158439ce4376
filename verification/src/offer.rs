//! The offer flow: make, accept, cancel.
//!
//! An offer escrows its full price at creation under the offer's derived
//! escrow address, an account only the engine itself may debit. While the
//! offer is active the escrow holds exactly the price; accepting pays the
//! seller and the treasury out of the escrow, cancelling refunds it whole to
//! the buyer, and either way the escrow drains to zero as the offer is
//! consumed. Expiry is enforced at acceptance only: an expired, unaccepted
//! offer stays cancellable and fully refundable for as long as it stands.

use vstd::prelude::*;
use crate::errors::NftMarketplaceError;
use crate::fees::{fee_amount_spec, seller_amount_spec, split_price};
use crate::records::{AssetAccount, Marketplace, Offer};

verus! {

/// The accounts a caller supplies to make an offer.
#[derive(Clone, Copy, Debug, PartialEq, Eq)]
pub struct MakeOffer {
    /// The principal proposing to buy, whose funds are escrowed.
    pub buyer: u64,
    /// The asset the offer names.
    pub mint: u64,
    /// The buyer's spendable balance, debited for the escrow.
    pub buyer_balance: u64,
    /// The balance of the offer's escrow address. The substrate creates the
    /// escrow account together with the offer record, so it starts empty.
    pub escrow_balance: u64,
    /// The derivation nonce of the offer's address.
    pub bump: u8,
}

/// The accounts a caller supplies to accept an offer.
#[derive(Clone, Copy, Debug, PartialEq, Eq)]
pub struct AcceptOffer {
    /// The registry, read for the fee rate.
    pub marketplace: Marketplace,
    /// The offer being accepted.
    pub offer: Offer,
    /// The balance of the offer's escrow address, the payment source.
    pub escrow_balance: u64,
    /// The principal accepting, who must custody the asset.
    pub seller: u64,
    /// The accepting seller's balance.
    pub seller_balance: u64,
    /// The balance of the registry's treasury.
    pub treasury_balance: u64,
    /// The seller's holding of the offered asset.
    pub seller_token_account: AssetAccount,
    /// The buyer's receiving account for the asset, which must already exist
    /// and belong to the offer's buyer.
    pub buyer_token_account: AssetAccount,
}

/// The accounts a caller supplies to cancel an offer.
#[derive(Clone, Copy, Debug, PartialEq, Eq)]
pub struct CancelOffer {
    /// The offer to cancel.
    pub offer: Offer,
    /// The balance of the offer's escrow address.
    pub escrow_balance: u64,
    /// The principal asking to cancel, who must be the offer's buyer.
    pub buyer: u64,
    /// That principal's balance, credited with the refund.
    pub buyer_balance: u64,
}

/// The escrow invariant of an offer: from creation until the offer is
/// consumed, its escrow address holds exactly the price; the accounts of a
/// consumed offer are only ever seen drained.
pub open spec fn offer_escrow_inv(offer: Offer, escrow_balance: u64) -> bool {
    offer.active ==> escrow_balance == offer.price
}

/// Why `make_offer` refuses its input, or `None` if it succeeds.
pub open spec fn make_offer_error(
    ctx: MakeOffer,
    price: u64,
    expiry_time: i64,
    now: i64,
) -> Option<NftMarketplaceError> {
    if expiry_time <= now {
        Some(NftMarketplaceError::InvalidExpiry)
    } else if ctx.buyer_balance < price {
        Some(NftMarketplaceError::InsufficientFunds)
    } else {
        None
    }
}

/// The offer record `make_offer` creates on success.
pub open spec fn make_offer_record(
    ctx: MakeOffer,
    price: u64,
    expiry_time: i64,
    now: i64,
) -> Offer {
    Offer {
        buyer: ctx.buyer,
        mint: ctx.mint,
        price: price,
        created_at: now,
        expires_at: expiry_time,
        active: true,
        bump: ctx.bump,
    }
}

/// The state a successful `make_offer` leaves: the price moved from the
/// buyer's balance into the escrow, nothing else touched.
pub open spec fn make_offer_post(ctx: MakeOffer, price: u64) -> MakeOffer {
    MakeOffer {
        buyer_balance: (ctx.buyer_balance - price) as u64,
        escrow_balance: price,
        ..ctx
    }
}

/// Proposes to buy an asset at a price, escrowing the funds up front.
///
/// Refuses an expiry that does not lie after the execution-time clock with
/// `InvalidExpiry`. Creating the record and funding its escrow are one
/// transition: when the buyer's balance cannot cover the price, the whole
/// operation fails with `InsufficientFunds` and no record is created — no
/// dangling offer ever exists without its escrow.
pub fn make_offer(
    ctx: &mut MakeOffer,
    price: u64,
    expiry_time: i64,
    now: i64,
) -> (r: Result<Offer, NftMarketplaceError>)
    requires
        old(ctx).escrow_balance == 0,
    ensures
        match r {
            Ok(o) => make_offer_error(*old(ctx), price, expiry_time, now) is None
                && o == make_offer_record(*old(ctx), price, expiry_time, now)
                && *final(ctx) == make_offer_post(*old(ctx), price)
                && offer_escrow_inv(o, final(ctx).escrow_balance),
            Err(e) => make_offer_error(*old(ctx), price, expiry_time, now) == Some(e)
                && *final(ctx) == *old(ctx),
        },
{
    if expiry_time <= now {
        return Err(NftMarketplaceError::InvalidExpiry);
    }
    if ctx.buyer_balance < price {
        return Err(NftMarketplaceError::InsufficientFunds);
    }
    ctx.buyer_balance = ctx.buyer_balance - price;
    ctx.escrow_balance = price;
    Ok(Offer {
        buyer: ctx.buyer,
        mint: ctx.mint,
        price: price,
        created_at: now,
        expires_at: expiry_time,
        active: true,
        bump: ctx.bump,
    })
}

/// Why `accept_offer` refuses its input, or `None` if it succeeds.
pub open spec fn accept_offer_error(ctx: AcceptOffer, now: i64) -> Option<NftMarketplaceError> {
    if !ctx.offer.active {
        Some(NftMarketplaceError::InactiveOffer)
    } else if now > ctx.offer.expires_at {
        Some(NftMarketplaceError::ExpiredOffer)
    } else if ctx.seller_token_account.owner != ctx.seller
        || ctx.seller_token_account.mint != ctx.offer.mint
        || ctx.seller_token_account.amount != 1 {
        Some(NftMarketplaceError::NotNftOwner)
    } else if ctx.buyer_token_account.owner != ctx.offer.buyer
        || ctx.buyer_token_account.mint != ctx.offer.mint {
        Some(NftMarketplaceError::InvalidOwnership)
    } else if fee_amount_spec(ctx.offer.price, ctx.marketplace.fee) > ctx.offer.price {
        Some(NftMarketplaceError::ArithmeticUnderflow)
    } else {
        None
    }
}

/// The state a successful `accept_offer` leaves: the escrow drained into the
/// seller amount and the fee, the asset moved to the buyer, the offer
/// consumed.
pub open spec fn accept_offer_post(ctx: AcceptOffer) -> AcceptOffer {
    let price = ctx.offer.price;
    let fee_bps = ctx.marketplace.fee;
    AcceptOffer {
        offer: Offer { active: false, ..ctx.offer },
        escrow_balance: 0u64,
        seller_balance: (ctx.seller_balance + seller_amount_spec(price, fee_bps)) as u64,
        treasury_balance: (ctx.treasury_balance + fee_amount_spec(price, fee_bps)) as u64,
        seller_token_account: AssetAccount { amount: 0, ..ctx.seller_token_account },
        buyer_token_account: AssetAccount {
            amount: (ctx.buyer_token_account.amount + 1) as u64,
            ..ctx.buyer_token_account
        },
        ..ctx
    }
}

/// The machine limits an acceptance rests on: the balances it credits sum
/// within a word, and the receiving account has room for one more unit.
pub open spec fn accept_offer_fits(ctx: AcceptOffer) -> bool {
    &&& ctx.escrow_balance + ctx.seller_balance + ctx.treasury_balance <= u64::MAX
    &&& ctx.buyer_token_account.amount < u64::MAX
}

/// Accepts an offer, settling the trade out of its escrow.
///
/// Checks, in order: the offer is active; the execution-time clock has not
/// passed the stored expiry (`ExpiredOffer` otherwise — expiry is enforced
/// here and only here); the accepting seller custodies the one unit of the
/// asset; the buyer's receiving account belongs to the offer's buyer; and
/// the fee split does not exceed the price. Each check failing returns its
/// error with no effect — in particular an expired offer keeps its full
/// escrow. On success the escrowed price, not the buyer's live balance, pays
/// the seller amount and the fee, the asset moves to the offer's buyer, the
/// escrow drains to zero exactly, and the offer's active flag flips to false.
pub fn accept_offer(ctx: &mut AcceptOffer, now: i64) -> (r: Result<(), NftMarketplaceError>)
    requires
        offer_escrow_inv(old(ctx).offer, old(ctx).escrow_balance),
        accept_offer_fits(*old(ctx)),
    ensures
        match r {
            Ok(()) => accept_offer_error(*old(ctx), now) is None
                && *final(ctx) == accept_offer_post(*old(ctx))
                && final(ctx).escrow_balance == 0,
            Err(e) => accept_offer_error(*old(ctx), now) == Some(e) && *final(ctx) == *old(ctx),
        },
{
    if !ctx.offer.active {
        return Err(NftMarketplaceError::InactiveOffer);
    }
    if now > ctx.offer.expires_at {
        return Err(NftMarketplaceError::ExpiredOffer);
    }
    if ctx.seller_token_account.owner != ctx.seller
        || ctx.seller_token_account.mint != ctx.offer.mint
        || ctx.seller_token_account.amount != 1 {
        return Err(NftMarketplaceError::NotNftOwner);
    }
    if ctx.buyer_token_account.owner != ctx.offer.buyer
        || ctx.buyer_token_account.mint != ctx.offer.mint {
        return Err(NftMarketplaceError::InvalidOwnership);
    }
    let amounts = match split_price(ctx.offer.price, ctx.marketplace.fee) {
        Ok(a) => a,
        Err(e) => {
            return Err(e);
        },
    };
    ctx.escrow_balance = ctx.escrow_balance - amounts.1;
    ctx.escrow_balance = ctx.escrow_balance - amounts.0;
    ctx.seller_balance = ctx.seller_balance + amounts.1;
    ctx.treasury_balance = ctx.treasury_balance + amounts.0;
    ctx.seller_token_account.amount = 0;
    ctx.buyer_token_account.amount = ctx.buyer_token_account.amount + 1;
    ctx.offer.active = false;
    Ok(())
}

/// Why `cancel_offer` refuses its input, or `None` if it succeeds.
pub open spec fn cancel_offer_error(ctx: CancelOffer) -> Option<NftMarketplaceError> {
    if ctx.buyer != ctx.offer.buyer {
        Some(NftMarketplaceError::InvalidOwnership)
    } else if !ctx.offer.active {
        Some(NftMarketplaceError::InactiveOffer)
    } else {
        None
    }
}

/// The state a successful `cancel_offer` leaves: the whole escrowed price
/// refunded to the buyer, the offer consumed.
pub open spec fn cancel_offer_post(ctx: CancelOffer) -> CancelOffer {
    CancelOffer {
        offer: Offer { active: false, ..ctx.offer },
        escrow_balance: 0u64,
        buyer_balance: (ctx.buyer_balance + ctx.offer.price) as u64,
        ..ctx
    }
}

/// The machine limit a refund rests on: the refunded balance fits a word.
pub open spec fn cancel_offer_fits(ctx: CancelOffer) -> bool {
    ctx.buyer_balance + ctx.escrow_balance <= u64::MAX
}

/// Cancels an offer, refunding its whole escrow to the buyer.
///
/// Only the offer's buyer may cancel, and only while the offer is active.
/// The operation never consults a clock: an expired, unaccepted offer stays
/// cancellable at any later time, and the refund is always the full price.
pub fn cancel_offer(ctx: &mut CancelOffer) -> (r: Result<(), NftMarketplaceError>)
    requires
        offer_escrow_inv(old(ctx).offer, old(ctx).escrow_balance),
        cancel_offer_fits(*old(ctx)),
    ensures
        match r {
            Ok(()) => cancel_offer_error(*old(ctx)) is None
                && *final(ctx) == cancel_offer_post(*old(ctx))
                && final(ctx).escrow_balance == 0,
            Err(e) => cancel_offer_error(*old(ctx)) == Some(e) && *final(ctx) == *old(ctx),
        },
{
    if ctx.buyer != ctx.offer.buyer {
        return Err(NftMarketplaceError::InvalidOwnership);
    }
    if !ctx.offer.active {
        return Err(NftMarketplaceError::InactiveOffer);
    }
    ctx.buyer_balance = ctx.buyer_balance + ctx.escrow_balance;
    ctx.escrow_balance = 0;
    ctx.offer.active = false;
    Ok(())
}

/// Escrow conservation across the offer's life: creation establishes an
/// escrow of exactly the price, and each of the two consuming transitions —
/// accept and cancel — drains it to exactly zero while deactivating the
/// offer, so the invariant holds in every reachable state.
pub proof fn lemma_offer_escrow_conservation(
    m: MakeOffer,
    price: u64,
    expiry_time: i64,
    now: i64,
    a: AcceptOffer,
    c: CancelOffer,
)
    requires
        make_offer_error(m, price, expiry_time, now) is None,
        offer_escrow_inv(a.offer, a.escrow_balance),
        offer_escrow_inv(c.offer, c.escrow_balance),
    ensures
        make_offer_post(m, price).escrow_balance
            == make_offer_record(m, price, expiry_time, now).price,
        offer_escrow_inv(
            make_offer_record(m, price, expiry_time, now),
            make_offer_post(m, price).escrow_balance,
        ),
        accept_offer_post(a).escrow_balance == 0,
        offer_escrow_inv(accept_offer_post(a).offer, accept_offer_post(a).escrow_balance),
        cancel_offer_post(c).escrow_balance == 0,
        offer_escrow_inv(cancel_offer_post(c).offer, cancel_offer_post(c).escrow_balance),
{
}

/// An acceptance conserves funds: the escrow drains into the seller amount
/// and the fee with nothing minted or lost across the three balances.
pub proof fn lemma_accept_offer_conserves_funds(ctx: AcceptOffer, now: i64)
    requires
        accept_offer_error(ctx, now) is None,
        offer_escrow_inv(ctx.offer, ctx.escrow_balance),
        accept_offer_fits(ctx),
    ensures
        accept_offer_post(ctx).escrow_balance + accept_offer_post(ctx).seller_balance
            + accept_offer_post(ctx).treasury_balance
            == ctx.escrow_balance + ctx.seller_balance + ctx.treasury_balance,
{
}

/// An offer settles at most once: after an acceptance succeeds, any further
/// acceptance of the offer it left behind fails with `InactiveOffer`, at any
/// time and whatever accounts the second submission names.
pub proof fn lemma_offer_settles_at_most_once(
    first: AcceptOffer,
    now_first: i64,
    second: AcceptOffer,
    now_second: i64,
)
    requires
        accept_offer_error(first, now_first) is None,
        second.offer == accept_offer_post(first).offer,
    ensures
        accept_offer_error(second, now_second) == Some(NftMarketplaceError::InactiveOffer),
{
}

/// A consumed offer supports no second acceptance, at any time and whatever
/// the other accounts hold: the attempt fails with `InactiveOffer`.
pub proof fn lemma_consumed_offer_rejects_accept(ctx: AcceptOffer, now: i64)
    requires
        !ctx.offer.active,
    ensures
        accept_offer_error(ctx, now) == Some(NftMarketplaceError::InactiveOffer),
{
}

/// A consumed offer cannot be cancelled a second time either: the buyer's
/// own attempt fails with `InactiveOffer`, so no refund is ever paid twice.
pub proof fn lemma_consumed_offer_rejects_cancel(ctx: CancelOffer)
    requires
        !ctx.offer.active,
        ctx.buyer == ctx.offer.buyer,
    ensures
        cancel_offer_error(ctx) == Some(NftMarketplaceError::InactiveOffer),
{
}

/// Expiry blocks acceptance and only acceptance: once the execution-time
/// clock passes the stored expiry, accepting fails with `ExpiredOffer`.
pub proof fn lemma_expired_offer_not_acceptable(ctx: AcceptOffer, now: i64)
    requires
        ctx.offer.active,
        now > ctx.offer.expires_at,
    ensures
        accept_offer_error(ctx, now) == Some(NftMarketplaceError::ExpiredOffer),
{
}

/// An expired, unaccepted offer remains cancellable and fully refundable by
/// its buyer: cancellation never consults a clock, succeeds on any active
/// offer the buyer cancels, and pays back the whole escrowed price.
pub proof fn lemma_expiry_never_blocks_cancel(ctx: CancelOffer)
    requires
        ctx.offer.active,
        ctx.buyer == ctx.offer.buyer,
        offer_escrow_inv(ctx.offer, ctx.escrow_balance),
        cancel_offer_fits(ctx),
    ensures
        cancel_offer_error(ctx) is None,
        cancel_offer_post(ctx).buyer_balance == ctx.buyer_balance + ctx.offer.price,
        cancel_offer_post(ctx).escrow_balance == 0,
{
}

} // verus!
