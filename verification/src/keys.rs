use vstd::prelude::*;

verus! {

/// An account address on the ledger, reduced to a plain numeric identifier.
///
/// Every participant a transaction can touch — a wallet, a token holding, or
/// a listing entity at its deterministic address — is named by one key, and
/// the core only ever compares keys for equality, so a plain identifier
/// carries everything the logic reads.
#[derive(Clone, Copy, Debug, PartialEq, Eq, Structural, Hash)]
pub struct Pubkey {
    pub id: u64,
}

/// Immutable marketplace configuration, fixed when the system is initialized.
#[derive(Clone, Copy, Debug, PartialEq, Eq, Structural)]
pub struct MarketConfig {
    /// The platform authority that receives the royalty of every sale.
    pub collection_authority: Pubkey,
}

/// The deterministic address of the listing entity for `mint`.
pub open spec fn spec_listing_address(mint: Pubkey) -> Pubkey {
    Pubkey { id: mint.id ^ 0x8000_0000_0000_0000 }
}

/// Derive the address the listing entity of `mint` lives at: a pure map
/// from the asset identifier into a reserved half of the key space, used
/// directly as the storage key. The address is the lookup — no separate
/// index ties assets to listings.
pub fn listing_address(mint: Pubkey) -> (r: Pubkey)
    ensures
        r == spec_listing_address(mint),
{
    Pubkey { id: mint.id ^ 0x8000_0000_0000_0000 }
}

/// Law: the derivation is injective, so each asset has exactly one listing
/// address and no two assets share one — at most one listing entity per
/// asset, by construction.
pub proof fn lemma_listing_address_injective(a: Pubkey, b: Pubkey)
    ensures
        spec_listing_address(a) == spec_listing_address(b) ==> a == b,
{
    let x: u64 = a.id;
    let y: u64 = b.id;
    assert(x ^ 0x8000_0000_0000_0000 == y ^ 0x8000_0000_0000_0000 ==> x == y) by (bit_vector);
}

} // verus!
