use vstd::prelude::*;

verus! {

/// The error code a rejected transaction carries.
///
/// Every failure aborts the whole enclosing operation: no field update, no
/// balance movement and no delegation change persists. The contracts of the
/// operations state, input by input, which code comes back.
#[derive(Clone, Copy, Debug, PartialEq, Eq, Structural)]
pub enum CustomError {
    /// An account is owned by the wrong program or party.
    IncorrectOwner,
    /// A name exceeds 32 bytes.
    NameTooLong,
    /// A symbol exceeds 10 bytes.
    SymbolTooLong,
    /// A URI exceeds 200 bytes.
    UriTooLong,
    /// The royalty recipient is not the configured collection authority.
    InvalidCollectionAuthority,
    /// A listing price must be greater than zero.
    InvalidPrice,
    /// The buyer's spendable balance does not cover the price.
    InsufficientFunds,
    /// A card stat exceeds its maximum of 100.
    InvalidStats,
    /// The holding offered does not contain exactly the one unit required.
    InvalidNFTOwnership,
    /// Royalty or payout arithmetic would overflow.
    Overflow,
    /// The asset already has a live listing; it must be cancelled or sold
    /// before it can be listed again.
    ListingAlreadyActive,
    /// The operation needs an active listing, but the listing is inactive.
    ListingNotActive,
    /// The caller is not the party the listing or delegation record names.
    NotNFTOwner,
}

} // verus!
