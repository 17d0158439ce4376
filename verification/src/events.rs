//! Fire-and-forget notifications of the bid flow.
//!
//! Each successful bid operation describes itself with one of these records
//! so an observer can follow the market. Emission has no delivery guarantee
//! and no effect on settlement: every contract in this crate holds whether or
//! not anybody observes the notification channel.

use vstd::prelude::*;
use crate::records::Bid;

verus! {

/// A bid was placed and its price escrowed.
#[derive(Clone, Copy, Debug, PartialEq, Eq)]
pub struct BidPlaced {
    /// The principal that placed the bid.
    pub bidder: u64,
    /// The asset the bid names.
    pub mint: u64,
    /// The escrowed bid price.
    pub price: u64,
    /// The last clock reading at which the bid may still be accepted.
    pub expires_at: i64,
}

/// A bid was accepted and the trade settled.
#[derive(Clone, Copy, Debug, PartialEq, Eq)]
pub struct BidAccepted {
    /// The principal whose bid was accepted.
    pub bidder: u64,
    /// The seller that accepted the bid.
    pub seller: u64,
    /// The asset that changed hands.
    pub mint: u64,
    /// The settled price.
    pub price: u64,
}

/// A bid was cancelled and its escrow refunded.
#[derive(Clone, Copy, Debug, PartialEq, Eq)]
pub struct BidCancelled {
    /// The principal that cancelled its bid.
    pub bidder: u64,
    /// The asset the bid named.
    pub mint: u64,
    /// The refunded bid price.
    pub price: u64,
}

/// The notification a successful `place_bid` emits for its bid.
pub fn bid_placed(bid: &Bid) -> (e: BidPlaced)
    ensures
        e.bidder == bid.bidder,
        e.mint == bid.mint,
        e.price == bid.price,
        e.expires_at == bid.expires_at,
{
    BidPlaced { bidder: bid.bidder, mint: bid.mint, price: bid.price, expires_at: bid.expires_at }
}

/// The notification a successful `accept_bid` emits for its trade.
pub fn bid_accepted(bid: &Bid, seller: u64) -> (e: BidAccepted)
    ensures
        e.bidder == bid.bidder,
        e.seller == seller,
        e.mint == bid.mint,
        e.price == bid.price,
{
    BidAccepted { bidder: bid.bidder, seller: seller, mint: bid.mint, price: bid.price }
}

/// The notification a successful `cancel_bid` emits for its refund.
pub fn bid_cancelled(bid: &Bid) -> (e: BidCancelled)
    ensures
        e.bidder == bid.bidder,
        e.mint == bid.mint,
        e.price == bid.price,
{
    BidCancelled { bidder: bid.bidder, mint: bid.mint, price: bid.price }
}

} // verus!
