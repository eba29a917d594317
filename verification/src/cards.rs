use vstd::prelude::*;

use crate::errors::CustomError;
use crate::keys::Pubkey;

verus! {

/// The element of a card.
#[derive(Clone, Copy, Debug, PartialEq, Eq, Structural, Default)]
pub enum ElementType {
    #[default]
    Wholesome,
    Toxic,
    Dank,
    Cursed,
}

/// The rarity tier of a card.
#[derive(Clone, Copy, Debug, PartialEq, Eq, Structural, Default)]
pub enum RarityType {
    #[default]
    Common,
    Rare,
    Epic,
    Legendary,
    Mythic,
    GodTier,
}

/// The gameplay record attached to a minted card.
#[derive(Clone, Copy, Debug, PartialEq, Eq, Structural)]
pub struct CardStats {
    /// The asset the record belongs to.
    pub mint: Pubkey,
    /// Attack value, at most 100.
    pub attack: u8,
    /// Defense value, at most 100.
    pub defense: u8,
    pub element: ElementType,
    pub rarity: RarityType,
}

/// Which code a mint request is rejected with, if any: the checks run in
/// the order name, symbol, URI, attack, defense.
pub open spec fn mint_input_outcome(
    name_len: usize,
    symbol_len: usize,
    uri_len: usize,
    stats: CardStats,
) -> Result<(), CustomError> {
    if name_len > 32 {
        Err(CustomError::NameTooLong)
    } else if symbol_len > 10 {
        Err(CustomError::SymbolTooLong)
    } else if uri_len > 200 {
        Err(CustomError::UriTooLong)
    } else if stats.attack > 100 {
        Err(CustomError::InvalidStats)
    } else if stats.defense > 100 {
        Err(CustomError::InvalidStats)
    } else {
        Ok(())
    }
}

/// Validate a mint request before any issuance work is done: metadata
/// lengths are measured in bytes by the caller, and both stats are capped
/// at 100. Issuance itself (creating the unique token and attaching its
/// metadata) is the ledger runtime's work and happens only after this
/// accepts.
pub fn validate_mint_inputs(
    name_len: usize,
    symbol_len: usize,
    uri_len: usize,
    stats: &CardStats,
) -> (r: Result<(), CustomError>)
    ensures
        r == mint_input_outcome(name_len, symbol_len, uri_len, *stats),
        r is Ok <==> name_len <= 32 && symbol_len <= 10 && uri_len <= 200 && stats.attack <= 100
            && stats.defense <= 100,
{
    if name_len > 32 {
        return Err(CustomError::NameTooLong);
    }
    if symbol_len > 10 {
        return Err(CustomError::SymbolTooLong);
    }
    if uri_len > 200 {
        return Err(CustomError::UriTooLong);
    }
    if stats.attack > 100 {
        return Err(CustomError::InvalidStats);
    }
    if stats.defense > 100 {
        return Err(CustomError::InvalidStats);
    }
    Ok(())
}

} // verus!
