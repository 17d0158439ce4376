//! A fixed-price marketplace settlement engine for unique assets.
//!
//! A holder lists an asset at a fixed price, other parties make time-bounded
//! offers or bids with funds escrowed up front, and a trade settles atomically:
//! the price moves from the payment source to the seller minus a marketplace
//! fee, the fee moves to the registry's treasury, and the single unit of the
//! asset moves to the new holder. The ledger substrate that persists records,
//! authorizes debits and reads the clock is a collaborator outside this crate;
//! every operation here is a pure transition on the plain values a caller
//! supplies (record fields, account balances, the execution-time clock) and is
//! verified against the contracts below.

pub mod errors;
pub mod records;
pub mod fees;
pub mod registry;
pub mod listing;
pub mod offer;
pub mod bid;
pub mod events;
