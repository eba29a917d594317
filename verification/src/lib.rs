//! Listing, escrow and settlement core of a marketplace for uniquely held
//! digital assets on a shared ledger.
//!
//! A seller opens a listing for an asset they hold exactly one unit of, may
//! reprice or cancel it, and a buyer purchases it with an automatic royalty
//! split. The marketplace is non-custodial: it never holds the asset, only a
//! scoped delegation grant in favor of the listing's own deterministic
//! address, and that grant is what lets settlement move the asset without the
//! seller signing the purchase. Every operation is an atomic transaction: it
//! either applies in full or leaves every account untouched, and each
//! contract states exactly which of the two happened and why.
//!
//! The ledger runtime itself (account resolution at deterministic addresses,
//! and the primitives that persist balance and delegation changes) is the
//! caller's side; the core works on plain-value images of the accounts a
//! transaction touches and the runtime serializes all transactions that touch
//! one listing address, so two concurrent operations on one listing never
//! interleave.

pub mod cards;
pub mod delegation;
pub mod errors;
pub mod keys;
pub mod listing;
pub mod market;
pub mod settlement;
