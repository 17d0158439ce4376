//! Creation of the marketplace registry.
//!
//! The registry is the singleton every settlement reads for the fee rate and
//! the treasury. Its address is derived from a fixed seed, so a second
//! creation attempt collides with the existing record and is refused.

use vstd::prelude::*;
use crate::errors::NftMarketplaceError;
use crate::records::{Marketplace, FEE_BASIS_POINTS_MAX};

verus! {

/// The accounts a caller supplies to create the registry.
#[derive(Clone, Copy, Debug, PartialEq, Eq)]
pub struct InitializeMarketplace {
    /// The principal creating the registry, stored as its authority.
    pub authority: u64,
    /// The principal whose balance is to receive every marketplace fee.
    pub treasury: u64,
    /// Whether the substrate already holds a record at the registry's
    /// derived address.
    pub marketplace_exists: bool,
    /// The derivation nonce of the registry's address.
    pub bump: u8,
}

/// Why `initialize_marketplace` refuses its input, or `None` if it succeeds.
pub open spec fn initialize_marketplace_error(
    ctx: InitializeMarketplace,
    marketplace_fee: u64,
) -> Option<NftMarketplaceError> {
    if ctx.marketplace_exists {
        Some(NftMarketplaceError::AlreadyInitialized)
    } else if marketplace_fee > FEE_BASIS_POINTS_MAX {
        Some(NftMarketplaceError::InvalidFee)
    } else {
        None
    }
}

/// The registry record `initialize_marketplace` creates on success.
pub open spec fn initialize_marketplace_record(
    ctx: InitializeMarketplace,
    marketplace_fee: u64,
) -> Marketplace {
    Marketplace {
        authority: ctx.authority,
        fee: marketplace_fee,
        treasury: ctx.treasury,
        bump: ctx.bump,
    }
}

/// Creates the registry, once per deployment.
///
/// Stores the caller as authority, `ctx.treasury` as the fee recipient and
/// `marketplace_fee` as the fee rate. Fails with `AlreadyInitialized` when
/// the singular derived record already exists, and with `InvalidFee` when the
/// rate exceeds the basis-point ceiling; no record is created on failure.
pub fn initialize_marketplace(
    ctx: &InitializeMarketplace,
    marketplace_fee: u64,
) -> (r: Result<Marketplace, NftMarketplaceError>)
    ensures
        match r {
            Ok(m) => initialize_marketplace_error(*ctx, marketplace_fee) is None
                && m == initialize_marketplace_record(*ctx, marketplace_fee)
                && m.wf(),
            Err(e) => initialize_marketplace_error(*ctx, marketplace_fee) == Some(e),
        },
{
    if ctx.marketplace_exists {
        return Err(NftMarketplaceError::AlreadyInitialized);
    }
    if marketplace_fee > FEE_BASIS_POINTS_MAX {
        return Err(NftMarketplaceError::InvalidFee);
    }
    Ok(Marketplace {
        authority: ctx.authority,
        fee: marketplace_fee,
        treasury: ctx.treasury,
        bump: ctx.bump,
    })
}

/// Every registry the engine creates respects the basis-point ceiling, so
/// the fee split of any trade settled under it partitions the price exactly.
pub proof fn lemma_initialized_registry_wf(ctx: InitializeMarketplace, marketplace_fee: u64)
    requires
        initialize_marketplace_error(ctx, marketplace_fee) is None,
    ensures
        initialize_marketplace_record(ctx, marketplace_fee).wf(),
{
}

} // verus!
