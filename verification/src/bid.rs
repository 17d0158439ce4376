//! The bid flow: place, accept, cancel.
//!
//! A bid mirrors an offer — price escrowed at creation, expiry enforced at
//! acceptance only, full refund on cancellation — but lives in an escrow
//! namespace of its own, so one party can hold an offer and a bid on the same
//! asset at once. One asymmetry is deliberate and preserved: when the
//! bidder's receiving account must be created during acceptance, the seller
//! accepting the bid pays the creation cost, where a buy charges the buyer.

use vstd::prelude::*;
use crate::errors::NftMarketplaceError;
use crate::fees::{fee_amount_spec, seller_amount_spec, split_price};
use crate::records::{AssetAccount, Bid, Marketplace};

verus! {

/// The accounts a caller supplies to place a bid.
#[derive(Clone, Copy, Debug, PartialEq, Eq)]
pub struct PlaceBid {
    /// The principal bidding, whose funds are escrowed.
    pub bidder: u64,
    /// The asset the bid names.
    pub mint: u64,
    /// The bidder's spendable balance, debited for the escrow.
    pub bidder_balance: u64,
    /// The balance of the bid's escrow address. The substrate creates the
    /// escrow account together with the bid record, so it starts empty.
    pub escrow_balance: u64,
    /// The derivation nonce of the bid's address.
    pub bump: u8,
}

/// The accounts a caller supplies to accept a bid.
#[derive(Clone, Copy, Debug, PartialEq, Eq)]
pub struct AcceptBid {
    /// The registry, read for the fee rate.
    pub marketplace: Marketplace,
    /// The bid being accepted.
    pub bid: Bid,
    /// The balance of the bid's escrow address, the payment source.
    pub escrow_balance: u64,
    /// The principal accepting, who must custody the asset.
    pub seller: u64,
    /// The accepting seller's balance, which also pays the creation of the
    /// bidder's receiving account when that account does not exist yet.
    pub seller_balance: u64,
    /// The balance of the registry's treasury.
    pub treasury_balance: u64,
    /// The seller's holding of the asset the bid names.
    pub seller_token_account: AssetAccount,
    /// The bidder's receiving account for the asset. When
    /// `bidder_token_account_exists` is false, the substrate creates it
    /// during the acceptance and these stored fields are meaningless until
    /// then.
    pub bidder_token_account: AssetAccount,
    /// Whether the bidder's receiving account already exists.
    pub bidder_token_account_exists: bool,
    /// What the substrate charges to create a receiving account; an
    /// acceptance charges it to the seller.
    pub account_creation_cost: u64,
}

/// The accounts a caller supplies to cancel a bid.
#[derive(Clone, Copy, Debug, PartialEq, Eq)]
pub struct CancelBid {
    /// The bid to cancel.
    pub bid: Bid,
    /// The balance of the bid's escrow address.
    pub escrow_balance: u64,
    /// The principal asking to cancel, who must be the bidder.
    pub bidder: u64,
    /// That principal's balance, credited with the refund.
    pub bidder_balance: u64,
}

/// The escrow invariant of a bid: from creation until the bid is consumed,
/// its escrow address holds exactly the price; the accounts of a consumed
/// bid are only ever seen drained.
pub open spec fn bid_escrow_inv(bid: Bid, escrow_balance: u64) -> bool {
    bid.active ==> escrow_balance == bid.price
}

/// Why `place_bid` refuses its input, or `None` if it succeeds.
pub open spec fn place_bid_error(
    ctx: PlaceBid,
    price: u64,
    expiry_time: i64,
    now: i64,
) -> Option<NftMarketplaceError> {
    if expiry_time <= now {
        Some(NftMarketplaceError::InvalidExpiry)
    } else if ctx.bidder_balance < price {
        Some(NftMarketplaceError::InsufficientFunds)
    } else {
        None
    }
}

/// The bid record `place_bid` creates on success.
pub open spec fn place_bid_record(
    ctx: PlaceBid,
    price: u64,
    expiry_time: i64,
    now: i64,
) -> Bid {
    Bid {
        bidder: ctx.bidder,
        mint: ctx.mint,
        price: price,
        created_at: now,
        expires_at: expiry_time,
        active: true,
        bump: ctx.bump,
    }
}

/// The state a successful `place_bid` leaves: the price moved from the
/// bidder's balance into the escrow, nothing else touched.
pub open spec fn place_bid_post(ctx: PlaceBid, price: u64) -> PlaceBid {
    PlaceBid {
        bidder_balance: (ctx.bidder_balance - price) as u64,
        escrow_balance: price,
        ..ctx
    }
}

/// Places a bid on an asset, escrowing the funds up front.
///
/// Refuses an expiry that does not lie after the execution-time clock with
/// `InvalidExpiry`. Creating the record and funding its escrow are one
/// transition: when the bidder's balance cannot cover the price, the whole
/// operation fails with `InsufficientFunds` and no record is created.
pub fn place_bid(
    ctx: &mut PlaceBid,
    price: u64,
    expiry_time: i64,
    now: i64,
) -> (r: Result<Bid, NftMarketplaceError>)
    requires
        old(ctx).escrow_balance == 0,
    ensures
        match r {
            Ok(b) => place_bid_error(*old(ctx), price, expiry_time, now) is None
                && b == place_bid_record(*old(ctx), price, expiry_time, now)
                && *final(ctx) == place_bid_post(*old(ctx), price)
                && bid_escrow_inv(b, final(ctx).escrow_balance),
            Err(e) => place_bid_error(*old(ctx), price, expiry_time, now) == Some(e)
                && *final(ctx) == *old(ctx),
        },
{
    if expiry_time <= now {
        return Err(NftMarketplaceError::InvalidExpiry);
    }
    if ctx.bidder_balance < price {
        return Err(NftMarketplaceError::InsufficientFunds);
    }
    ctx.bidder_balance = ctx.bidder_balance - price;
    ctx.escrow_balance = price;
    Ok(Bid {
        bidder: ctx.bidder,
        mint: ctx.mint,
        price: price,
        created_at: now,
        expires_at: expiry_time,
        active: true,
        bump: ctx.bump,
    })
}

/// Why `accept_bid` refuses its input, or `None` if it succeeds.
pub open spec fn accept_bid_error(ctx: AcceptBid, now: i64) -> Option<NftMarketplaceError> {
    if !ctx.bid.active {
        Some(NftMarketplaceError::InactiveBid)
    } else if now > ctx.bid.expires_at {
        Some(NftMarketplaceError::ExpiredBid)
    } else if ctx.seller_token_account.owner != ctx.seller
        || ctx.seller_token_account.mint != ctx.bid.mint
        || ctx.seller_token_account.amount != 1 {
        Some(NftMarketplaceError::NotNftOwner)
    } else if ctx.bidder_token_account_exists
        && (ctx.bidder_token_account.owner != ctx.bid.bidder
            || ctx.bidder_token_account.mint != ctx.bid.mint) {
        Some(NftMarketplaceError::InvalidOwnership)
    } else if fee_amount_spec(ctx.bid.price, ctx.marketplace.fee) > ctx.bid.price {
        Some(NftMarketplaceError::ArithmeticUnderflow)
    } else if !ctx.bidder_token_account_exists
        && ctx.seller_balance < ctx.account_creation_cost {
        Some(NftMarketplaceError::InsufficientFunds)
    } else {
        None
    }
}

/// The bidder's holding of the asset after a successful acceptance.
pub open spec fn accept_bid_receiver_account(ctx: AcceptBid) -> AssetAccount {
    AssetAccount {
        owner: ctx.bid.bidder,
        mint: ctx.bid.mint,
        amount: if ctx.bidder_token_account_exists {
            (ctx.bidder_token_account.amount + 1) as u64
        } else {
            1u64
        },
    }
}

/// What the acceptance costs the seller before the seller amount arrives:
/// the creation of the bidder's receiving account, when needed.
pub open spec fn accept_bid_seller_charge(ctx: AcceptBid) -> int {
    if ctx.bidder_token_account_exists {
        0int
    } else {
        ctx.account_creation_cost as int
    }
}

/// The state a successful `accept_bid` leaves: the escrow drained into the
/// seller amount and the fee, the seller charged for any account creation,
/// the asset moved to the bidder, the bid consumed.
pub open spec fn accept_bid_post(ctx: AcceptBid) -> AcceptBid {
    let price = ctx.bid.price;
    let fee_bps = ctx.marketplace.fee;
    AcceptBid {
        bid: Bid { active: false, ..ctx.bid },
        escrow_balance: 0u64,
        seller_balance: (ctx.seller_balance - accept_bid_seller_charge(ctx)
            + seller_amount_spec(price, fee_bps)) as u64,
        treasury_balance: (ctx.treasury_balance + fee_amount_spec(price, fee_bps)) as u64,
        seller_token_account: AssetAccount { amount: 0, ..ctx.seller_token_account },
        bidder_token_account: accept_bid_receiver_account(ctx),
        ..ctx
    }
}

/// The machine limits an acceptance rests on: the balances it credits sum
/// within a word, and the receiving account has room for one more unit.
pub open spec fn accept_bid_fits(ctx: AcceptBid) -> bool {
    &&& ctx.escrow_balance + ctx.seller_balance + ctx.treasury_balance <= u64::MAX
    &&& (ctx.bidder_token_account_exists ==> ctx.bidder_token_account.amount < u64::MAX)
}

/// Accepts a bid, settling the trade out of its escrow.
///
/// Checks, in order: the bid is active; the execution-time clock has not
/// passed the stored expiry (`ExpiredBid` otherwise — expiry is enforced
/// here and only here); the accepting seller custodies the one unit of the
/// asset; the bidder's receiving account, if it exists, belongs to the
/// bidder and the asset; the fee split does not exceed the price; and, when
/// the receiving account must be created, the seller — not the bidder — can
/// cover its creation cost. Each check failing returns its error with no
/// effect — in particular an expired bid keeps its full escrow. On success
/// the escrowed price pays the seller amount and the fee, the asset moves to
/// the bidder, the escrow drains to zero exactly, and the bid's active flag
/// flips to false.
pub fn accept_bid(ctx: &mut AcceptBid, now: i64) -> (r: Result<(), NftMarketplaceError>)
    requires
        bid_escrow_inv(old(ctx).bid, old(ctx).escrow_balance),
        accept_bid_fits(*old(ctx)),
    ensures
        match r {
            Ok(()) => accept_bid_error(*old(ctx), now) is None
                && *final(ctx) == accept_bid_post(*old(ctx))
                && final(ctx).escrow_balance == 0,
            Err(e) => accept_bid_error(*old(ctx), now) == Some(e) && *final(ctx) == *old(ctx),
        },
{
    if !ctx.bid.active {
        return Err(NftMarketplaceError::InactiveBid);
    }
    if now > ctx.bid.expires_at {
        return Err(NftMarketplaceError::ExpiredBid);
    }
    if ctx.seller_token_account.owner != ctx.seller
        || ctx.seller_token_account.mint != ctx.bid.mint
        || ctx.seller_token_account.amount != 1 {
        return Err(NftMarketplaceError::NotNftOwner);
    }
    if ctx.bidder_token_account_exists
        && (ctx.bidder_token_account.owner != ctx.bid.bidder
            || ctx.bidder_token_account.mint != ctx.bid.mint) {
        return Err(NftMarketplaceError::InvalidOwnership);
    }
    let amounts = match split_price(ctx.bid.price, ctx.marketplace.fee) {
        Ok(a) => a,
        Err(e) => {
            return Err(e);
        },
    };
    if !ctx.bidder_token_account_exists && ctx.seller_balance < ctx.account_creation_cost {
        return Err(NftMarketplaceError::InsufficientFunds);
    }
    let creation_cost: u64 = if ctx.bidder_token_account_exists {
        0
    } else {
        ctx.account_creation_cost
    };
    let received: u64 = if ctx.bidder_token_account_exists {
        ctx.bidder_token_account.amount + 1
    } else {
        1
    };
    ctx.escrow_balance = ctx.escrow_balance - amounts.1;
    ctx.escrow_balance = ctx.escrow_balance - amounts.0;
    ctx.seller_balance = ctx.seller_balance - creation_cost;
    ctx.seller_balance = ctx.seller_balance + amounts.1;
    ctx.treasury_balance = ctx.treasury_balance + amounts.0;
    ctx.seller_token_account.amount = 0;
    ctx.bidder_token_account = AssetAccount {
        owner: ctx.bid.bidder,
        mint: ctx.bid.mint,
        amount: received,
    };
    ctx.bid.active = false;
    Ok(())
}

/// Why `cancel_bid` refuses its input, or `None` if it succeeds.
pub open spec fn cancel_bid_error(ctx: CancelBid) -> Option<NftMarketplaceError> {
    if ctx.bidder != ctx.bid.bidder {
        Some(NftMarketplaceError::InvalidOwnership)
    } else if !ctx.bid.active {
        Some(NftMarketplaceError::InactiveBid)
    } else {
        None
    }
}

/// The state a successful `cancel_bid` leaves: the whole escrowed price
/// refunded to the bidder, the bid consumed.
pub open spec fn cancel_bid_post(ctx: CancelBid) -> CancelBid {
    CancelBid {
        bid: Bid { active: false, ..ctx.bid },
        escrow_balance: 0u64,
        bidder_balance: (ctx.bidder_balance + ctx.bid.price) as u64,
        ..ctx
    }
}

/// The machine limit a refund rests on: the refunded balance fits a word.
pub open spec fn cancel_bid_fits(ctx: CancelBid) -> bool {
    ctx.bidder_balance + ctx.escrow_balance <= u64::MAX
}

/// Cancels a bid, refunding its whole escrow to the bidder.
///
/// Only the bidder may cancel, and only while the bid is active. The
/// operation never consults a clock: an expired, unaccepted bid stays
/// cancellable at any later time, and the refund is always the full price.
pub fn cancel_bid(ctx: &mut CancelBid) -> (r: Result<(), NftMarketplaceError>)
    requires
        bid_escrow_inv(old(ctx).bid, old(ctx).escrow_balance),
        cancel_bid_fits(*old(ctx)),
    ensures
        match r {
            Ok(()) => cancel_bid_error(*old(ctx)) is None
                && *final(ctx) == cancel_bid_post(*old(ctx))
                && final(ctx).escrow_balance == 0,
            Err(e) => cancel_bid_error(*old(ctx)) == Some(e) && *final(ctx) == *old(ctx),
        },
{
    if ctx.bidder != ctx.bid.bidder {
        return Err(NftMarketplaceError::InvalidOwnership);
    }
    if !ctx.bid.active {
        return Err(NftMarketplaceError::InactiveBid);
    }
    ctx.bidder_balance = ctx.bidder_balance + ctx.escrow_balance;
    ctx.escrow_balance = 0;
    ctx.bid.active = false;
    Ok(())
}

/// Escrow conservation across the bid's life: creation establishes an
/// escrow of exactly the price, and each of the two consuming transitions —
/// accept and cancel — drains it to exactly zero while deactivating the bid,
/// so the invariant holds in every reachable state.
pub proof fn lemma_bid_escrow_conservation(
    p: PlaceBid,
    price: u64,
    expiry_time: i64,
    now: i64,
    a: AcceptBid,
    c: CancelBid,
)
    requires
        place_bid_error(p, price, expiry_time, now) is None,
        bid_escrow_inv(a.bid, a.escrow_balance),
        bid_escrow_inv(c.bid, c.escrow_balance),
    ensures
        place_bid_post(p, price).escrow_balance
            == place_bid_record(p, price, expiry_time, now).price,
        bid_escrow_inv(
            place_bid_record(p, price, expiry_time, now),
            place_bid_post(p, price).escrow_balance,
        ),
        accept_bid_post(a).escrow_balance == 0,
        bid_escrow_inv(accept_bid_post(a).bid, accept_bid_post(a).escrow_balance),
        cancel_bid_post(c).escrow_balance == 0,
        bid_escrow_inv(cancel_bid_post(c).bid, cancel_bid_post(c).escrow_balance),
{
}

/// An acceptance conserves funds: the escrow drains into the seller amount
/// and the fee, and across the three balances exactly the creation cost of
/// a missing receiving account leaves the system (paid by the seller to the
/// substrate); nothing else is minted or lost.
pub proof fn lemma_accept_bid_conserves_funds(ctx: AcceptBid, now: i64)
    requires
        accept_bid_error(ctx, now) is None,
        bid_escrow_inv(ctx.bid, ctx.escrow_balance),
        accept_bid_fits(ctx),
    ensures
        accept_bid_post(ctx).escrow_balance + accept_bid_post(ctx).seller_balance
            + accept_bid_post(ctx).treasury_balance
            == ctx.escrow_balance + ctx.seller_balance + ctx.treasury_balance
                - accept_bid_seller_charge(ctx),
{
}

/// A bid settles at most once: after an acceptance succeeds, any further
/// acceptance of the bid it left behind fails with `InactiveBid`, at any
/// time and whatever accounts the second submission names.
pub proof fn lemma_bid_settles_at_most_once(
    first: AcceptBid,
    now_first: i64,
    second: AcceptBid,
    now_second: i64,
)
    requires
        accept_bid_error(first, now_first) is None,
        second.bid == accept_bid_post(first).bid,
    ensures
        accept_bid_error(second, now_second) == Some(NftMarketplaceError::InactiveBid),
{
}

/// A consumed bid supports no second acceptance, at any time and whatever
/// the other accounts hold: the attempt fails with `InactiveBid`.
pub proof fn lemma_consumed_bid_rejects_accept(ctx: AcceptBid, now: i64)
    requires
        !ctx.bid.active,
    ensures
        accept_bid_error(ctx, now) == Some(NftMarketplaceError::InactiveBid),
{
}

/// A consumed bid cannot be cancelled a second time either: the bidder's
/// own attempt fails with `InactiveBid`, so no refund is ever paid twice.
pub proof fn lemma_consumed_bid_rejects_cancel(ctx: CancelBid)
    requires
        !ctx.bid.active,
        ctx.bidder == ctx.bid.bidder,
    ensures
        cancel_bid_error(ctx) == Some(NftMarketplaceError::InactiveBid),
{
}

/// Expiry blocks acceptance and only acceptance: once the execution-time
/// clock passes the stored expiry, accepting fails with `ExpiredBid`.
pub proof fn lemma_expired_bid_not_acceptable(ctx: AcceptBid, now: i64)
    requires
        ctx.bid.active,
        now > ctx.bid.expires_at,
    ensures
        accept_bid_error(ctx, now) == Some(NftMarketplaceError::ExpiredBid),
{
}

/// An expired, unaccepted bid remains cancellable and fully refundable by
/// its bidder: cancellation never consults a clock, succeeds on any active
/// bid the bidder cancels, and pays back the whole escrowed price.
pub proof fn lemma_expiry_never_blocks_bid_cancel(ctx: CancelBid)
    requires
        ctx.bid.active,
        ctx.bidder == ctx.bid.bidder,
        bid_escrow_inv(ctx.bid, ctx.escrow_balance),
        cancel_bid_fits(ctx),
    ensures
        cancel_bid_error(ctx) is None,
        cancel_bid_post(ctx).bidder_balance == ctx.bidder_balance + ctx.bid.price,
        cancel_bid_post(ctx).escrow_balance == 0,
{
}

} // verus!
