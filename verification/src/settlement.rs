use vstd::prelude::*;

use crate::errors::CustomError;

verus! {

/// The platform royalty of a sale: three percent of the price, rounded down.
pub open spec fn spec_royalty(price: u64) -> int {
    price * 3 / 100
}

/// What the seller is owed after the royalty is taken out.
pub open spec fn spec_seller_amount(price: u64) -> int {
    price - spec_royalty(price)
}

/// The royalty never exceeds the price, so the seller's share never
/// underflows.
pub proof fn lemma_royalty_le_price(price: u64)
    ensures
        0 <= spec_royalty(price) <= price,
{
    assert(0 <= price * 3 / 100 <= price) by (nonlinear_arith);
}

/// Law: the fee split is exact integer arithmetic — the royalty is the
/// floor of three percent of the price, and royalty and seller share
/// reassemble the price with nothing lost or created.
pub proof fn lemma_fee_split_exact(price: u64)
    ensures
        spec_royalty(price) == price * 3 / 100,
        spec_royalty(price) + spec_seller_amount(price) == price,
        0 <= spec_royalty(price) <= price,
{
    lemma_royalty_le_price(price);
}

/// The royalty of `price`, with overflow-checked multiplication: tripling
/// the price must fit in 64 bits, else the whole transaction aborts.
pub fn compute_royalty(price: u64) -> (r: Result<u64, CustomError>)
    ensures
        r is Ok <==> price * 3 <= u64::MAX,
        r matches Ok(royalty) ==> royalty == spec_royalty(price),
        r matches Err(e) ==> e == CustomError::Overflow,
{
    match price.checked_mul(3) {
        Some(tripled) => Ok(tripled / 100),
        None => Err(CustomError::Overflow),
    }
}

/// The exact fee split of a sale at `price`: the royalty and the seller's
/// share, which add back up to the price. Fails only when the royalty
/// computation itself would overflow.
pub fn compute_fee_split(price: u64) -> (r: Result<(u64, u64), CustomError>)
    ensures
        r is Ok <==> price * 3 <= u64::MAX,
        r matches Ok(split) ==> split.0 == spec_royalty(price) && split.1 == spec_seller_amount(
            price,
        ) && split.0 + split.1 == price,
        r matches Err(e) ==> e == CustomError::Overflow,
{
    let royalty = match compute_royalty(price) {
        Ok(v) => v,
        Err(e) => {
            return Err(e);
        },
    };
    proof {
        lemma_royalty_le_price(price);
    }
    let seller_amount = match price.checked_sub(royalty) {
        Some(v) => v,
        None => {
            return Err(CustomError::Overflow);
        },
    };
    Ok((royalty, seller_amount))
}

/// Atomic movement of the ledger's native currency between two balances.
pub fn transfer_lamports(from: &mut u64, to: &mut u64, amount: u64)
    requires
        *old(from) >= amount,
        *old(to) + amount <= u64::MAX,
    ensures
        *final(from) == *old(from) - amount,
        *final(to) == *old(to) + amount,
{
    *from = *from - amount;
    *to = *to + amount;
}

} // verus!
