//! The fee arithmetic of the settlement engine.
//!
//! A trade at `price` under a registry fee of `fee_bps` basis points splits
//! into a fee of `floor(price * fee_bps / 10000)` for the treasury and the
//! remainder for the seller. The multiplication runs at double the width of
//! the price, so it never overflows; if the computed fee exceeds the price
//! (possible only above the basis-point ceiling), the split is refused rather
//! than letting the seller amount wrap.

use vstd::prelude::*;
use vstd::arithmetic::div_mod::{lemma_div_is_ordered, lemma_div_multiples_vanish};
use vstd::arithmetic::mul::lemma_mul_inequality;
use crate::errors::NftMarketplaceError;
use crate::records::FEE_BASIS_POINTS_MAX;

verus! {

/// The marketplace fee on a trade: `floor(price * fee_bps / 10000)`.
pub open spec fn fee_amount_spec(price: u64, fee_bps: u64) -> int {
    (price * fee_bps) / (FEE_BASIS_POINTS_MAX as int)
}

/// What the seller keeps of a trade: the price minus the fee.
pub open spec fn seller_amount_spec(price: u64, fee_bps: u64) -> int {
    price - fee_amount_spec(price, fee_bps)
}

/// Under the basis-point ceiling the fee never exceeds the price.
pub proof fn lemma_fee_le_price(price: u64, fee_bps: u64)
    requires
        fee_bps <= FEE_BASIS_POINTS_MAX,
    ensures
        0 <= fee_amount_spec(price, fee_bps) <= price,
{
    let max: int = FEE_BASIS_POINTS_MAX as int;
    lemma_mul_inequality(fee_bps as int, max, price as int);
    assert(price * fee_bps == fee_bps * price) by (nonlinear_arith);
    assert(max * price == price * max) by (nonlinear_arith);
    lemma_div_is_ordered(price * fee_bps, max * price, max);
    lemma_div_multiples_vanish(price as int, max);
}

/// For every fee rate within the basis-point ceiling and every price, the fee
/// and the seller amount partition the price exactly: nothing is lost beyond
/// the floor truncation already inside the fee, and nothing is minted.
pub proof fn lemma_fee_split_exact(price: u64, fee_bps: u64)
    requires
        fee_bps <= FEE_BASIS_POINTS_MAX,
    ensures
        fee_amount_spec(price, fee_bps) + seller_amount_spec(price, fee_bps) == price,
        0 <= fee_amount_spec(price, fee_bps) <= price,
        0 <= seller_amount_spec(price, fee_bps) <= price,
{
    lemma_fee_le_price(price, fee_bps);
}

/// Splits a trade price into `(fee_amount, seller_amount)` under `fee_bps`.
///
/// Succeeds with the exact floor split whenever the fee does not exceed the
/// price — always the case under the basis-point ceiling — and refuses the
/// split with `ArithmeticUnderflow` otherwise, rather than wrapping.
pub fn split_price(price: u64, fee_bps: u64) -> (r: Result<(u64, u64), NftMarketplaceError>)
    ensures
        fee_amount_spec(price, fee_bps) <= price ==> (r matches Ok(a)
            && a.0 == fee_amount_spec(price, fee_bps)
            && a.1 == seller_amount_spec(price, fee_bps)
            && a.0 + a.1 == price),
        fee_amount_spec(price, fee_bps) > price
            ==> r == Err::<(u64, u64), NftMarketplaceError>(NftMarketplaceError::ArithmeticUnderflow),
{
    proof {
        assert((price as u128) * (fee_bps as u128) <= u128::MAX) by (nonlinear_arith)
            requires
                price <= u64::MAX,
                fee_bps <= u64::MAX,
        ;
    }
    let product: u128 = (price as u128) * (fee_bps as u128);
    let fee_wide: u128 = product / 10000;
    if fee_wide > price as u128 {
        Err(NftMarketplaceError::ArithmeticUnderflow)
    } else {
        let fee_amount: u64 = fee_wide as u64;
        let seller_amount: u64 = price - fee_amount;
        Ok((fee_amount, seller_amount))
    }
}

} // verus!
