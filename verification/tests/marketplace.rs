use nft_marketplace::bid::{accept_bid, cancel_bid, place_bid, AcceptBid, CancelBid, PlaceBid};
use nft_marketplace::errors::NftMarketplaceError;
use nft_marketplace::events::{bid_accepted, bid_cancelled, bid_placed};
use nft_marketplace::fees::split_price;
use nft_marketplace::listing::{buy, cancel_listing, list, BuyNft, CancelListing, ListNft};
use nft_marketplace::offer::{accept_offer, cancel_offer, make_offer, AcceptOffer, CancelOffer, MakeOffer};
use nft_marketplace::records::{AssetAccount, Bid, Listing, Marketplace, Offer};
use nft_marketplace::registry::{initialize_marketplace, InitializeMarketplace};

const AUTHORITY: u64 = 1;
const TREASURY: u64 = 2;
const SELLER: u64 = 3;
const BUYER: u64 = 4;
const MINT: u64 = 9;

fn registry(fee: u64) -> Marketplace {
    Marketplace { authority: AUTHORITY, fee, treasury: TREASURY, bump: 254 }
}

fn active_listing(price: u64) -> Listing {
    Listing { seller: SELLER, mint: MINT, price, active: true, created_at: 10, bump: 7 }
}

fn buy_ctx(fee: u64, price: u64) -> BuyNft {
    BuyNft {
        marketplace: registry(fee),
        listing: active_listing(price),
        buyer: BUYER,
        buyer_balance: 2_000_000,
        seller_balance: 500,
        treasury_balance: 40,
        seller_token_account: AssetAccount { owner: SELLER, mint: MINT, amount: 1 },
        buyer_token_account: AssetAccount { owner: BUYER, mint: MINT, amount: 0 },
        buyer_token_account_exists: true,
        account_creation_cost: 5_000,
    }
}

fn active_offer(price: u64, expires_at: i64) -> Offer {
    Offer {
        buyer: BUYER,
        mint: MINT,
        price,
        created_at: 100,
        expires_at,
        active: true,
        bump: 5,
    }
}

fn accept_offer_ctx(fee: u64, price: u64, expires_at: i64) -> AcceptOffer {
    AcceptOffer {
        marketplace: registry(fee),
        offer: active_offer(price, expires_at),
        escrow_balance: price,
        seller: SELLER,
        seller_balance: 500,
        treasury_balance: 40,
        seller_token_account: AssetAccount { owner: SELLER, mint: MINT, amount: 1 },
        buyer_token_account: AssetAccount { owner: BUYER, mint: MINT, amount: 0 },
    }
}

fn active_bid(price: u64, expires_at: i64) -> Bid {
    Bid {
        bidder: BUYER,
        mint: MINT,
        price,
        created_at: 100,
        expires_at,
        active: true,
        bump: 5,
    }
}

fn accept_bid_ctx(fee: u64, price: u64, expires_at: i64) -> AcceptBid {
    AcceptBid {
        marketplace: registry(fee),
        bid: active_bid(price, expires_at),
        escrow_balance: price,
        seller: SELLER,
        seller_balance: 500,
        treasury_balance: 40,
        seller_token_account: AssetAccount { owner: SELLER, mint: MINT, amount: 1 },
        bidder_token_account: AssetAccount { owner: BUYER, mint: MINT, amount: 0 },
        bidder_token_account_exists: true,
        account_creation_cost: 5_000,
    }
}

#[test]
fn fee_split_quarter_percent() {
    assert_eq!(split_price(1_000_000, 250), Ok((25_000, 975_000)));
}

#[test]
fn fee_split_zero_rate() {
    assert_eq!(split_price(1_000_000, 0), Ok((0, 1_000_000)));
}

#[test]
fn fee_split_full_rate() {
    assert_eq!(split_price(777, 10_000), Ok((777, 0)));
}

#[test]
fn fee_split_floor_truncation_loses_nothing() {
    // 999 * 250 / 10000 truncates to 24; the seller amount absorbs the rest.
    let (fee, seller) = split_price(999, 250).unwrap();
    assert_eq!((fee, seller), (24, 975));
    assert_eq!(fee + seller, 999);
}

#[test]
fn fee_split_zero_price() {
    assert_eq!(split_price(0, 250), Ok((0, 0)));
}

#[test]
fn fee_split_largest_price() {
    let (fee, seller) = split_price(u64::MAX, 10_000).unwrap();
    assert_eq!(fee, u64::MAX);
    assert_eq!(seller, 0);
}

#[test]
fn fee_above_ceiling_underflows() {
    // 1 * 20000 / 10000 == 2 > price, so the split is refused.
    assert_eq!(split_price(1, 20_000), Err(NftMarketplaceError::ArithmeticUnderflow));
}

#[test]
fn initialize_stores_configuration() {
    let ctx = InitializeMarketplace {
        authority: AUTHORITY,
        treasury: TREASURY,
        marketplace_exists: false,
        bump: 254,
    };
    let m = initialize_marketplace(&ctx, 250).unwrap();
    assert_eq!(m, registry(250));
}

#[test]
fn initialize_twice_fails() {
    let ctx = InitializeMarketplace {
        authority: AUTHORITY,
        treasury: TREASURY,
        marketplace_exists: true,
        bump: 254,
    };
    assert_eq!(
        initialize_marketplace(&ctx, 250),
        Err(NftMarketplaceError::AlreadyInitialized)
    );
}

#[test]
fn initialize_rejects_fee_above_ceiling() {
    let ctx = InitializeMarketplace {
        authority: AUTHORITY,
        treasury: TREASURY,
        marketplace_exists: false,
        bump: 254,
    };
    assert_eq!(initialize_marketplace(&ctx, 10_001), Err(NftMarketplaceError::InvalidFee));
}

#[test]
fn list_creates_active_listing() {
    let ctx = ListNft {
        seller: SELLER,
        mint: MINT,
        seller_token_account: AssetAccount { owner: SELLER, mint: MINT, amount: 1 },
        bump: 7,
    };
    let l = list(&ctx, 1_000_000, 0, 10).unwrap();
    assert_eq!(l, active_listing(1_000_000));
}

#[test]
fn list_without_the_asset_fails() {
    let ctx = ListNft {
        seller: SELLER,
        mint: MINT,
        seller_token_account: AssetAccount { owner: SELLER, mint: MINT, amount: 0 },
        bump: 7,
    };
    assert_eq!(list(&ctx, 1_000_000, 0, 10), Err(NftMarketplaceError::InvalidOwnership));
}

#[test]
fn cancel_listing_deactivates() {
    let mut ctx = CancelListing { listing: active_listing(1_000_000), seller: SELLER };
    assert_eq!(cancel_listing(&mut ctx), Ok(()));
    assert!(!ctx.listing.active);
}

#[test]
fn cancel_listing_by_stranger_fails() {
    let mut ctx = CancelListing { listing: active_listing(1_000_000), seller: BUYER };
    let before = ctx;
    assert_eq!(cancel_listing(&mut ctx), Err(NftMarketplaceError::NotSeller));
    assert_eq!(ctx, before);
}

#[test]
fn cancel_listing_twice_fails_inactive() {
    let mut ctx = CancelListing { listing: active_listing(1_000_000), seller: SELLER };
    assert_eq!(cancel_listing(&mut ctx), Ok(()));
    let before = ctx;
    assert_eq!(cancel_listing(&mut ctx), Err(NftMarketplaceError::InactiveListing));
    assert_eq!(ctx, before);
}

#[test]
fn buy_settles_price_fee_and_asset() {
    // Registry fee 250 bps on a 1,000,000 listing: the seller receives
    // 975,000, the treasury 25,000, and the asset moves to the buyer.
    let mut ctx = buy_ctx(250, 1_000_000);
    assert_eq!(buy(&mut ctx), Ok(()));
    assert_eq!(ctx.buyer_balance, 1_000_000);
    assert_eq!(ctx.seller_balance, 500 + 975_000);
    assert_eq!(ctx.treasury_balance, 40 + 25_000);
    assert_eq!(ctx.seller_token_account.amount, 0);
    assert_eq!(
        ctx.buyer_token_account,
        AssetAccount { owner: BUYER, mint: MINT, amount: 1 }
    );
    assert!(!ctx.listing.active);
}

#[test]
fn buy_same_listing_twice_settles_once() {
    // Two submissions race on one listing: the first settles, the second
    // finds the consumed record and moves nothing.
    let mut ctx = buy_ctx(250, 1_000_000);
    assert_eq!(buy(&mut ctx), Ok(()));
    let mut second = buy_ctx(250, 1_000_000);
    second.listing = ctx.listing;
    let before = second;
    assert_eq!(buy(&mut second), Err(NftMarketplaceError::InactiveListing));
    assert_eq!(second, before);
}

#[test]
fn buy_without_funds_fails_clean() {
    let mut ctx = buy_ctx(250, 1_000_000);
    ctx.buyer_balance = 999_999;
    let before = ctx;
    assert_eq!(buy(&mut ctx), Err(NftMarketplaceError::InsufficientFunds));
    assert_eq!(ctx, before);
}

#[test]
fn buy_from_seller_without_asset_fails() {
    let mut ctx = buy_ctx(250, 1_000_000);
    ctx.seller_token_account.amount = 0;
    let before = ctx;
    assert_eq!(buy(&mut ctx), Err(NftMarketplaceError::NotNftOwner));
    assert_eq!(ctx, before);
}

#[test]
fn buy_into_foreign_account_fails() {
    let mut ctx = buy_ctx(250, 1_000_000);
    ctx.buyer_token_account.owner = SELLER;
    let before = ctx;
    assert_eq!(buy(&mut ctx), Err(NftMarketplaceError::InvalidOwnership));
    assert_eq!(ctx, before);
}

#[test]
fn buy_charges_account_creation_to_buyer() {
    let mut ctx = buy_ctx(250, 1_000_000);
    ctx.buyer_token_account_exists = false;
    assert_eq!(buy(&mut ctx), Ok(()));
    // The buyer paid the price and the creation of the receiving account.
    assert_eq!(ctx.buyer_balance, 2_000_000 - 1_000_000 - 5_000);
    assert_eq!(
        ctx.buyer_token_account,
        AssetAccount { owner: BUYER, mint: MINT, amount: 1 }
    );
}

#[test]
fn buy_under_fee_above_ceiling_underflows() {
    let mut ctx = buy_ctx(20_000, 1);
    let before = ctx;
    assert_eq!(buy(&mut ctx), Err(NftMarketplaceError::ArithmeticUnderflow));
    assert_eq!(ctx, before);
}

#[test]
fn make_offer_escrows_the_price() {
    let mut ctx = MakeOffer {
        buyer: BUYER,
        mint: MINT,
        buyer_balance: 600_000,
        escrow_balance: 0,
        bump: 5,
    };
    let o = make_offer(&mut ctx, 500_000, 100 + 3_600, 100).unwrap();
    assert_eq!(o, active_offer(500_000, 3_700));
    assert_eq!(ctx.buyer_balance, 100_000);
    assert_eq!(ctx.escrow_balance, 500_000);
}

#[test]
fn make_offer_without_funds_creates_nothing() {
    let mut ctx = MakeOffer {
        buyer: BUYER,
        mint: MINT,
        buyer_balance: 499_999,
        escrow_balance: 0,
        bump: 5,
    };
    let before = ctx;
    assert_eq!(
        make_offer(&mut ctx, 500_000, 3_700, 100),
        Err(NftMarketplaceError::InsufficientFunds)
    );
    assert_eq!(ctx, before);
}

#[test]
fn make_offer_rejects_past_expiry() {
    let mut ctx = MakeOffer {
        buyer: BUYER,
        mint: MINT,
        buyer_balance: 600_000,
        escrow_balance: 0,
        bump: 5,
    };
    let before = ctx;
    assert_eq!(
        make_offer(&mut ctx, 500_000, 100, 100),
        Err(NftMarketplaceError::InvalidExpiry)
    );
    assert_eq!(ctx, before);
}

#[test]
fn accept_offer_settles_from_escrow() {
    let mut ctx = accept_offer_ctx(250, 500_000, 3_700);
    assert_eq!(accept_offer(&mut ctx, 200), Ok(()));
    assert_eq!(ctx.escrow_balance, 0);
    assert_eq!(ctx.seller_balance, 500 + 487_500);
    assert_eq!(ctx.treasury_balance, 40 + 12_500);
    assert_eq!(ctx.seller_token_account.amount, 0);
    assert_eq!(ctx.buyer_token_account.amount, 1);
    assert!(!ctx.offer.active);
}

#[test]
fn accept_offer_after_expiry_fails_and_keeps_escrow() {
    // Offer of 500,000 expiring at T+3600, accepted at T+3601: the call
    // fails, nothing moves, and the escrow stays intact and cancellable.
    let placed_at: i64 = 100;
    let expires_at = placed_at + 3_600;
    let mut ctx = accept_offer_ctx(250, 500_000, expires_at);
    let before = ctx;
    assert_eq!(
        accept_offer(&mut ctx, expires_at + 1),
        Err(NftMarketplaceError::ExpiredOffer)
    );
    assert_eq!(ctx, before);
    assert!(ctx.offer.active);
    assert_eq!(ctx.escrow_balance, 500_000);
}

#[test]
fn accept_offer_twice_settles_once() {
    let mut ctx = accept_offer_ctx(250, 500_000, 3_700);
    assert_eq!(accept_offer(&mut ctx, 200), Ok(()));
    let before = ctx;
    assert_eq!(accept_offer(&mut ctx, 200), Err(NftMarketplaceError::InactiveOffer));
    assert_eq!(ctx, before);
}

#[test]
fn accept_offer_by_non_holder_fails() {
    let mut ctx = accept_offer_ctx(250, 500_000, 3_700);
    ctx.seller_token_account.amount = 0;
    let before = ctx;
    assert_eq!(accept_offer(&mut ctx, 200), Err(NftMarketplaceError::NotNftOwner));
    assert_eq!(ctx, before);
}

#[test]
fn cancel_offer_refunds_whole_escrow() {
    let mut ctx = CancelOffer {
        offer: active_offer(500_000, 3_700),
        escrow_balance: 500_000,
        buyer: BUYER,
        buyer_balance: 100,
    };
    assert_eq!(cancel_offer(&mut ctx), Ok(()));
    assert_eq!(ctx.buyer_balance, 500_100);
    assert_eq!(ctx.escrow_balance, 0);
    assert!(!ctx.offer.active);
}

#[test]
fn expired_offer_stays_cancellable() {
    // Expiry blocks acceptance only: long after T+3600 the buyer still
    // reclaims the full escrow.
    let mut accept = accept_offer_ctx(250, 500_000, 3_700);
    assert_eq!(accept_offer(&mut accept, 1_000_000), Err(NftMarketplaceError::ExpiredOffer));
    let mut cancel = CancelOffer {
        offer: accept.offer,
        escrow_balance: accept.escrow_balance,
        buyer: BUYER,
        buyer_balance: 0,
    };
    assert_eq!(cancel_offer(&mut cancel), Ok(()));
    assert_eq!(cancel.buyer_balance, 500_000);
    assert_eq!(cancel.escrow_balance, 0);
}

#[test]
fn cancel_offer_by_stranger_fails() {
    let mut ctx = CancelOffer {
        offer: active_offer(500_000, 3_700),
        escrow_balance: 500_000,
        buyer: SELLER,
        buyer_balance: 100,
    };
    let before = ctx;
    assert_eq!(cancel_offer(&mut ctx), Err(NftMarketplaceError::InvalidOwnership));
    assert_eq!(ctx, before);
}

#[test]
fn cancel_offer_twice_refunds_once() {
    let mut ctx = CancelOffer {
        offer: active_offer(500_000, 3_700),
        escrow_balance: 500_000,
        buyer: BUYER,
        buyer_balance: 100,
    };
    assert_eq!(cancel_offer(&mut ctx), Ok(()));
    let before = ctx;
    assert_eq!(cancel_offer(&mut ctx), Err(NftMarketplaceError::InactiveOffer));
    assert_eq!(ctx, before);
}

#[test]
fn place_bid_escrows_the_price() {
    let mut ctx = PlaceBid {
        bidder: BUYER,
        mint: MINT,
        bidder_balance: 600_000,
        escrow_balance: 0,
        bump: 5,
    };
    let b = place_bid(&mut ctx, 500_000, 3_700, 100).unwrap();
    assert_eq!(b, active_bid(500_000, 3_700));
    assert_eq!(ctx.bidder_balance, 100_000);
    assert_eq!(ctx.escrow_balance, 500_000);
}

#[test]
fn place_bid_without_funds_creates_nothing() {
    let mut ctx = PlaceBid {
        bidder: BUYER,
        mint: MINT,
        bidder_balance: 1,
        escrow_balance: 0,
        bump: 5,
    };
    let before = ctx;
    assert_eq!(
        place_bid(&mut ctx, 500_000, 3_700, 100),
        Err(NftMarketplaceError::InsufficientFunds)
    );
    assert_eq!(ctx, before);
}

#[test]
fn place_bid_rejects_past_expiry() {
    let mut ctx = PlaceBid {
        bidder: BUYER,
        mint: MINT,
        bidder_balance: 600_000,
        escrow_balance: 0,
        bump: 5,
    };
    assert_eq!(place_bid(&mut ctx, 500_000, 99, 100), Err(NftMarketplaceError::InvalidExpiry));
}

#[test]
fn accept_bid_settles_from_escrow() {
    let mut ctx = accept_bid_ctx(250, 500_000, 3_700);
    assert_eq!(accept_bid(&mut ctx, 200), Ok(()));
    assert_eq!(ctx.escrow_balance, 0);
    assert_eq!(ctx.seller_balance, 500 + 487_500);
    assert_eq!(ctx.treasury_balance, 40 + 12_500);
    assert_eq!(ctx.seller_token_account.amount, 0);
    assert_eq!(ctx.bidder_token_account.amount, 1);
    assert!(!ctx.bid.active);
}

#[test]
fn accept_bid_charges_account_creation_to_seller() {
    // The asymmetry of the flows: accepting a bid, the seller pays to
    // create the bidder's receiving account, where a buy charges the buyer.
    let mut ctx = accept_bid_ctx(250, 500_000, 3_700);
    ctx.bidder_token_account_exists = false;
    ctx.seller_balance = 6_000;
    assert_eq!(accept_bid(&mut ctx, 200), Ok(()));
    assert_eq!(ctx.seller_balance, 6_000 - 5_000 + 487_500);
    assert_eq!(
        ctx.bidder_token_account,
        AssetAccount { owner: BUYER, mint: MINT, amount: 1 }
    );
}

#[test]
fn accept_bid_seller_too_poor_for_creation_fails() {
    let mut ctx = accept_bid_ctx(250, 500_000, 3_700);
    ctx.bidder_token_account_exists = false;
    ctx.seller_balance = 4_999;
    let before = ctx;
    assert_eq!(accept_bid(&mut ctx, 200), Err(NftMarketplaceError::InsufficientFunds));
    assert_eq!(ctx, before);
}

#[test]
fn accept_bid_after_expiry_fails_and_keeps_escrow() {
    let mut ctx = accept_bid_ctx(250, 500_000, 3_700);
    let before = ctx;
    assert_eq!(accept_bid(&mut ctx, 3_701), Err(NftMarketplaceError::ExpiredBid));
    assert_eq!(ctx, before);
    assert_eq!(ctx.escrow_balance, 500_000);
}

#[test]
fn accept_bid_twice_settles_once() {
    let mut ctx = accept_bid_ctx(250, 500_000, 3_700);
    assert_eq!(accept_bid(&mut ctx, 200), Ok(()));
    let before = ctx;
    assert_eq!(accept_bid(&mut ctx, 200), Err(NftMarketplaceError::InactiveBid));
    assert_eq!(ctx, before);
}

#[test]
fn accept_bid_by_non_holder_fails() {
    let mut ctx = accept_bid_ctx(250, 500_000, 3_700);
    ctx.seller_token_account.owner = BUYER;
    let before = ctx;
    assert_eq!(accept_bid(&mut ctx, 200), Err(NftMarketplaceError::NotNftOwner));
    assert_eq!(ctx, before);
}

#[test]
fn cancel_bid_refunds_whole_escrow() {
    let mut ctx = CancelBid {
        bid: active_bid(500_000, 3_700),
        escrow_balance: 500_000,
        bidder: BUYER,
        bidder_balance: 100,
    };
    assert_eq!(cancel_bid(&mut ctx), Ok(()));
    assert_eq!(ctx.bidder_balance, 500_100);
    assert_eq!(ctx.escrow_balance, 0);
    assert!(!ctx.bid.active);
}

#[test]
fn expired_bid_stays_cancellable() {
    let mut ctx = CancelBid {
        bid: active_bid(500_000, 3_700),
        escrow_balance: 500_000,
        bidder: BUYER,
        bidder_balance: 0,
    };
    // The bid expired long ago; cancellation never consults a clock.
    assert_eq!(cancel_bid(&mut ctx), Ok(()));
    assert_eq!(ctx.bidder_balance, 500_000);
}

#[test]
fn cancel_bid_by_stranger_fails() {
    let mut ctx = CancelBid {
        bid: active_bid(500_000, 3_700),
        escrow_balance: 500_000,
        bidder: SELLER,
        bidder_balance: 100,
    };
    let before = ctx;
    assert_eq!(cancel_bid(&mut ctx), Err(NftMarketplaceError::InvalidOwnership));
    assert_eq!(ctx, before);
}

#[test]
fn cancel_bid_twice_refunds_once() {
    let mut ctx = CancelBid {
        bid: active_bid(500_000, 3_700),
        escrow_balance: 500_000,
        bidder: BUYER,
        bidder_balance: 100,
    };
    assert_eq!(cancel_bid(&mut ctx), Ok(()));
    let before = ctx;
    assert_eq!(cancel_bid(&mut ctx), Err(NftMarketplaceError::InactiveBid));
    assert_eq!(ctx, before);
}

#[test]
fn bid_events_mirror_their_records() {
    let b = active_bid(500_000, 3_700);
    let placed = bid_placed(&b);
    assert_eq!(
        (placed.bidder, placed.mint, placed.price, placed.expires_at),
        (BUYER, MINT, 500_000, 3_700)
    );
    let accepted = bid_accepted(&b, SELLER);
    assert_eq!(
        (accepted.bidder, accepted.seller, accepted.mint, accepted.price),
        (BUYER, SELLER, MINT, 500_000)
    );
    let cancelled = bid_cancelled(&b);
    assert_eq!((cancelled.bidder, cancelled.mint, cancelled.price), (BUYER, MINT, 500_000));
}
