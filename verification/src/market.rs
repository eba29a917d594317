use vstd::prelude::*;

use crate::delegation::approve;
use crate::delegation::execute_transfer;
use crate::delegation::revoke;
use crate::delegation::TokenAccountState;
use crate::errors::CustomError;
use crate::keys::MarketConfig;
use crate::keys::Pubkey;
use crate::listing::ListingData;
use crate::listing::ListingStatus;
use crate::listing::TradeAction;
use crate::listing::TradeHistory;
use crate::settlement::compute_fee_split;
use crate::settlement::lemma_royalty_le_price;
use crate::settlement::spec_royalty;
use crate::settlement::spec_seller_amount;
use crate::settlement::transfer_lamports;

verus! {

/// The escrow invariant tying a listing entity to the holding of its asset
/// by the current rights-holder: an active listing has a positive price and
/// exactly one live grant, for one unit, in favor of the listing's own
/// address; an inactive listing has no grant tied to it outstanding.
pub open spec fn escrow_inv(
    listing: ListingData,
    holding: TokenAccountState,
    listing_key: Pubkey,
) -> bool {
    &&& listing.status is Active ==> {
        &&& listing.price > 0
        &&& holding.owner == listing.seller
        &&& holding.mint == listing.mint
        &&& holding.amount == 1
        &&& holding.delegate == Some(listing_key)
        &&& holding.delegated_amount == 1
    }
    &&& listing.status is NotActive ==> holding.delegate != Some(listing_key)
}

/// Which code a listing request is rejected with, if any: the price must be
/// positive, the seller must hold exactly one unit, and the entity must not
/// already carry a live listing.
pub open spec fn list_outcome(
    listing: ListingData,
    token_account: TokenAccountState,
    seller: Pubkey,
    price: u64,
) -> Result<(), CustomError> {
    if price == 0 {
        Err(CustomError::InvalidPrice)
    } else if token_account.amount != 1 {
        Err(CustomError::InvalidNFTOwnership)
    } else if token_account.owner != seller {
        Err(CustomError::NotNFTOwner)
    } else if !(listing.history.len() == 0 || listing.status is NotActive) {
        Err(CustomError::ListingAlreadyActive)
    } else {
        Ok(())
    }
}

/// Open (or reopen) the listing of `mint` at price `price`.
///
/// On success the entity is active with the given seller and price, a grant
/// for exactly one unit is issued in favor of the listing's own address
/// `listing_key`, and a `List` event is appended to the history, which is
/// never reset across relist cycles. On failure nothing changes.
pub fn list_nft(
    listing: &mut ListingData,
    token_account: &mut TokenAccountState,
    listing_key: Pubkey,
    mint: Pubkey,
    seller: Pubkey,
    price: u64,
    now: i64,
) -> (r: Result<(), CustomError>)
    requires
        old(token_account).mint == mint,
    ensures
        r == list_outcome(*old(listing), *old(token_account), seller, price),
        r is Err ==> *final(listing) == *old(listing) && *final(token_account) == *old(
            token_account,
        ),
        r is Ok ==> final(listing).status is Active,
        r is Ok ==> final(listing).seller == seller,
        r is Ok ==> final(listing).mint == mint,
        r is Ok ==> final(listing).price == price,
        r is Ok ==> final(listing).created_at == now,
        r is Ok ==> final(listing).history@ == old(listing).history@.push(
            (TradeHistory { price, timestamp: now, action: TradeAction::List }),
        ),
        r is Ok ==> final(token_account).delegate == Some(listing_key),
        r is Ok ==> final(token_account).delegated_amount == 1,
        r is Ok ==> final(token_account).owner == old(token_account).owner,
        r is Ok ==> final(token_account).amount == old(token_account).amount,
        r is Ok ==> final(token_account).mint == old(token_account).mint,
        r is Ok ==> escrow_inv(*final(listing), *final(token_account), listing_key),
{
    if price == 0 {
        return Err(CustomError::InvalidPrice);
    }
    if token_account.amount != 1 {
        return Err(CustomError::InvalidNFTOwnership);
    }
    if token_account.owner != seller {
        return Err(CustomError::NotNFTOwner);
    }
    if !(listing.history.len() == 0 || listing.status == ListingStatus::NotActive) {
        return Err(CustomError::ListingAlreadyActive);
    }
    approve(token_account, listing_key, 1);
    listing.status = ListingStatus::Active;
    listing.seller = seller;
    listing.mint = mint;
    listing.price = price;
    listing.created_at = now;
    listing.history.push(TradeHistory { price, timestamp: now, action: TradeAction::List });
    Ok(())
}

/// Which code a reprice request is rejected with, if any: the listing must
/// be active, the caller must be both the holder of the unit and the stored
/// seller, and the grant on the holding must name the listing itself.
pub open spec fn update_outcome(
    listing: ListingData,
    token_account: TokenAccountState,
    listing_key: Pubkey,
    seller: Pubkey,
    new_price: u64,
) -> Result<(), CustomError> {
    if !(listing.status is Active) {
        Err(CustomError::ListingNotActive)
    } else if new_price == 0 {
        Err(CustomError::InvalidPrice)
    } else if token_account.owner != seller || listing.seller != seller {
        Err(CustomError::NotNFTOwner)
    } else if token_account.amount != 1 {
        Err(CustomError::InvalidNFTOwnership)
    } else if !token_account.spec_delegate_is(listing_key) {
        Err(CustomError::NotNFTOwner)
    } else {
        Ok(())
    }
}

/// Change the asked price of an active listing.
///
/// A grant cannot be mutated in place: the outstanding grant is revoked
/// before a fresh one for one unit is issued in favor of the listing's own
/// address, so no moment holds two live grants for the asset. On success the
/// price is updated and an `UpdatePrice` event is appended; everything else
/// stays, including `created_at` from the opening transition. On failure
/// nothing changes.
pub fn update_listing(
    listing: &mut ListingData,
    token_account: &mut TokenAccountState,
    listing_key: Pubkey,
    seller: Pubkey,
    new_price: u64,
    now: i64,
) -> (r: Result<(), CustomError>)
    requires
        old(token_account).mint == old(listing).mint,
    ensures
        r == update_outcome(*old(listing), *old(token_account), listing_key, seller, new_price),
        r is Err ==> *final(listing) == *old(listing) && *final(token_account) == *old(
            token_account,
        ),
        r is Ok ==> final(listing).status is Active,
        r is Ok ==> final(listing).seller == old(listing).seller,
        r is Ok ==> final(listing).mint == old(listing).mint,
        r is Ok ==> final(listing).price == new_price,
        r is Ok ==> final(listing).created_at == old(listing).created_at,
        r is Ok ==> final(listing).history@ == old(listing).history@.push(
            (TradeHistory { price: new_price, timestamp: now, action: TradeAction::UpdatePrice }),
        ),
        r is Ok ==> final(token_account).delegate == Some(listing_key),
        r is Ok ==> final(token_account).delegated_amount == 1,
        r is Ok ==> final(token_account).owner == old(token_account).owner,
        r is Ok ==> final(token_account).amount == old(token_account).amount,
        r is Ok ==> final(token_account).mint == old(token_account).mint,
        r is Ok ==> escrow_inv(*final(listing), *final(token_account), listing_key),
{
    if listing.status != ListingStatus::Active {
        return Err(CustomError::ListingNotActive);
    }
    if new_price == 0 {
        return Err(CustomError::InvalidPrice);
    }
    if token_account.owner != seller || listing.seller != seller {
        return Err(CustomError::NotNFTOwner);
    }
    if token_account.amount != 1 {
        return Err(CustomError::InvalidNFTOwnership);
    }
    if !token_account.delegate_is(listing_key) {
        return Err(CustomError::NotNFTOwner);
    }
    revoke(token_account);
    approve(token_account, listing_key, 1);
    listing.price = new_price;
    listing.history.push(
        TradeHistory { price: new_price, timestamp: now, action: TradeAction::UpdatePrice },
    );
    Ok(())
}

/// Which code a cancel request is rejected with, if any: the listing must be
/// active, the caller must be the stored seller, and the grant on the
/// holding must name the listing itself.
pub open spec fn cancel_outcome(
    listing: ListingData,
    token_account: TokenAccountState,
    listing_key: Pubkey,
    seller: Pubkey,
) -> Result<(), CustomError> {
    if !(listing.status is Active) {
        Err(CustomError::ListingNotActive)
    } else if listing.seller != seller {
        Err(CustomError::NotNFTOwner)
    } else if !token_account.spec_delegate_is(listing_key) {
        Err(CustomError::NotNFTOwner)
    } else {
        Ok(())
    }
}

/// Take an active listing off the market.
///
/// On success the grant is revoked, the listing goes inactive, and a
/// `Cancel` event carrying the last asked price is appended for audit; the
/// price field itself also keeps that last value. On failure nothing
/// changes.
pub fn cancel_listing(
    listing: &mut ListingData,
    token_account: &mut TokenAccountState,
    listing_key: Pubkey,
    seller: Pubkey,
    now: i64,
) -> (r: Result<(), CustomError>)
    requires
        old(token_account).mint == old(listing).mint,
        old(token_account).owner == seller,
    ensures
        r == cancel_outcome(*old(listing), *old(token_account), listing_key, seller),
        r is Err ==> *final(listing) == *old(listing) && *final(token_account) == *old(
            token_account,
        ),
        r is Ok ==> final(listing).status is NotActive,
        r is Ok ==> final(listing).seller == old(listing).seller,
        r is Ok ==> final(listing).mint == old(listing).mint,
        r is Ok ==> final(listing).price == old(listing).price,
        r is Ok ==> final(listing).created_at == old(listing).created_at,
        r is Ok ==> final(listing).history@ == old(listing).history@.push(
            (TradeHistory {
                price: old(listing).price,
                timestamp: now,
                action: TradeAction::Cancel,
            }),
        ),
        r is Ok ==> final(token_account).delegate is None,
        r is Ok ==> final(token_account).delegated_amount == 0,
        r is Ok ==> final(token_account).owner == old(token_account).owner,
        r is Ok ==> final(token_account).amount == old(token_account).amount,
        r is Ok ==> final(token_account).mint == old(token_account).mint,
        r is Ok ==> escrow_inv(*final(listing), *final(token_account), listing_key),
{
    if listing.status != ListingStatus::Active {
        return Err(CustomError::ListingNotActive);
    }
    if listing.seller != seller {
        return Err(CustomError::NotNFTOwner);
    }
    if !token_account.delegate_is(listing_key) {
        return Err(CustomError::NotNFTOwner);
    }
    revoke(token_account);
    listing.status = ListingStatus::NotActive;
    let current_price = listing.price;
    listing.history.push(
        TradeHistory { price: current_price, timestamp: now, action: TradeAction::Cancel },
    );
    Ok(())
}

/// Which code a purchase is rejected with, if any: the listing must be
/// active, the buyer's balance must cover the price, the royalty recipient
/// must be the configured authority, the holding must carry a live grant in
/// favor of the listing and still contain the unit, and the fee split must
/// not overflow.
pub open spec fn purchase_outcome(
    listing: ListingData,
    seller_token: TokenAccountState,
    buyer_lamports: u64,
    config: MarketConfig,
    authority_key: Pubkey,
    listing_key: Pubkey,
) -> Result<(), CustomError> {
    if !(listing.status is Active) {
        Err(CustomError::ListingNotActive)
    } else if buyer_lamports < listing.price {
        Err(CustomError::InsufficientFunds)
    } else if authority_key != config.collection_authority {
        Err(CustomError::InvalidCollectionAuthority)
    } else if !seller_token.spec_delegated_to(listing_key) {
        Err(CustomError::NotNFTOwner)
    } else if seller_token.amount < 1 {
        Err(CustomError::InvalidNFTOwnership)
    } else if listing.price * 3 > u64::MAX {
        Err(CustomError::Overflow)
    } else {
        Ok(())
    }
}

/// Settle the sale of an active listing to `buyer`, atomically.
///
/// The royalty goes from the buyer to the configured authority and the
/// remainder of the price to the stored seller, so the buyer is debited the
/// price exactly and no currency is lost or created. The one unit under
/// escrow then moves from the seller's holding to the buyer's on the
/// authority of the listing's own grant — the seller does not sign, and the
/// marketplace never holds the asset. Finally the listing goes inactive,
/// the seller field is reassigned to the buyer so the new owner can relist
/// the same entity at once, and a `Purchase` event carrying the sale price
/// is appended. Any failure leaves every account exactly as it was.
pub fn purchase_nft(
    listing: &mut ListingData,
    seller_token: &mut TokenAccountState,
    buyer_token: &mut TokenAccountState,
    buyer_lamports: &mut u64,
    seller_lamports: &mut u64,
    authority_lamports: &mut u64,
    config: &MarketConfig,
    authority_key: Pubkey,
    listing_key: Pubkey,
    buyer: Pubkey,
    now: i64,
) -> (r: Result<(), CustomError>)
    requires
        old(seller_token).mint == old(listing).mint,
        old(buyer_token).mint == old(listing).mint,
        old(buyer_token).owner == buyer,
        *old(seller_lamports) + old(listing).price <= u64::MAX,
        *old(authority_lamports) + old(listing).price <= u64::MAX,
        old(buyer_token).amount < u64::MAX,
    ensures
        r == purchase_outcome(
            *old(listing),
            *old(seller_token),
            *old(buyer_lamports),
            *config,
            authority_key,
            listing_key,
        ),
        r is Err ==> *final(listing) == *old(listing) && *final(seller_token) == *old(seller_token)
            && *final(buyer_token) == *old(buyer_token) && *final(buyer_lamports) == *old(
            buyer_lamports,
        ) && *final(seller_lamports) == *old(seller_lamports) && *final(authority_lamports) == *old(
            authority_lamports,
        ),
        r is Ok ==> *final(buyer_lamports) == *old(buyer_lamports) - old(listing).price,
        r is Ok ==> *final(authority_lamports) == *old(authority_lamports) + spec_royalty(
            old(listing).price,
        ),
        r is Ok ==> *final(seller_lamports) == *old(seller_lamports) + spec_seller_amount(
            old(listing).price,
        ),
        *final(buyer_lamports) + *final(seller_lamports) + *final(authority_lamports) == *old(
            buyer_lamports,
        ) + *old(seller_lamports) + *old(authority_lamports),
        r is Ok ==> final(seller_token).amount == old(seller_token).amount - 1,
        r is Ok ==> final(seller_token).delegated_amount == old(seller_token).delegated_amount - 1,
        r is Ok ==> final(seller_token).delegate == (if old(seller_token).delegated_amount == 1 {
            None::<Pubkey>
        } else {
            old(seller_token).delegate
        }),
        r is Ok ==> final(seller_token).owner == old(seller_token).owner,
        r is Ok ==> final(seller_token).mint == old(seller_token).mint,
        r is Ok ==> final(buyer_token).amount == old(buyer_token).amount + 1,
        r is Ok ==> final(buyer_token).owner == old(buyer_token).owner,
        r is Ok ==> final(buyer_token).mint == old(buyer_token).mint,
        r is Ok ==> final(buyer_token).delegate == old(buyer_token).delegate,
        r is Ok ==> final(buyer_token).delegated_amount == old(buyer_token).delegated_amount,
        r is Ok ==> final(listing).status is NotActive,
        r is Ok ==> final(listing).seller == buyer,
        r is Ok ==> final(listing).mint == old(listing).mint,
        r is Ok ==> final(listing).price == old(listing).price,
        r is Ok ==> final(listing).created_at == old(listing).created_at,
        r is Ok ==> final(listing).history@ == old(listing).history@.push(
            (TradeHistory {
                price: old(listing).price,
                timestamp: now,
                action: TradeAction::Purchase,
            }),
        ),
        r is Ok && old(seller_token).delegated_amount == 1 ==> escrow_inv(
            *final(listing),
            *final(seller_token),
            listing_key,
        ),
        r is Ok && old(buyer_token).delegate != Some(listing_key) ==> escrow_inv(
            *final(listing),
            *final(buyer_token),
            listing_key,
        ),
{
    let price = listing.price;
    if listing.status != ListingStatus::Active {
        return Err(CustomError::ListingNotActive);
    }
    if *buyer_lamports < price {
        return Err(CustomError::InsufficientFunds);
    }
    if authority_key != config.collection_authority {
        return Err(CustomError::InvalidCollectionAuthority);
    }
    if !seller_token.delegated_to(listing_key) {
        return Err(CustomError::NotNFTOwner);
    }
    if seller_token.amount < 1 {
        return Err(CustomError::InvalidNFTOwnership);
    }
    let (royalty, seller_amount) = match compute_fee_split(price) {
        Ok(split) => split,
        Err(e) => {
            return Err(e);
        },
    };
    proof {
        lemma_royalty_le_price(price);
    }
    transfer_lamports(buyer_lamports, authority_lamports, royalty);
    transfer_lamports(buyer_lamports, seller_lamports, seller_amount);
    execute_transfer(seller_token, buyer_token, listing_key, 1);
    listing.status = ListingStatus::NotActive;
    listing.seller = buyer;
    listing.history.push(TradeHistory { price, timestamp: now, action: TradeAction::Purchase });
    Ok(())
}

/// Law: every valid listing request is accepted — whenever the price is
/// positive, the seller holds exactly the one unit, and the entity carries
/// no live listing, `list_nft` returns `Ok` (and its contract then pins the
/// active state, the matching fields, and the trailing `List` event).
pub proof fn lemma_list_allowed(
    listing: ListingData,
    token_account: TokenAccountState,
    seller: Pubkey,
    price: u64,
)
    requires
        price > 0,
        token_account.amount == 1,
        token_account.owner == seller,
        listing.status is NotActive,
    ensures
        list_outcome(listing, token_account, seller, price) == Ok::<(), CustomError>(()),
{
}

/// Law: a reprice, a cancel or a purchase against an inactive listing is
/// always refused with the state error, whoever calls and whatever the
/// other accounts hold — and by the operations' contracts an `Err` leaves
/// every account exactly as it was.
pub proof fn lemma_inactive_rejected(
    listing: ListingData,
    token_account: TokenAccountState,
    buyer_lamports: u64,
    config: MarketConfig,
    authority_key: Pubkey,
    listing_key: Pubkey,
    seller: Pubkey,
    new_price: u64,
)
    requires
        listing.status is NotActive,
    ensures
        update_outcome(listing, token_account, listing_key, seller, new_price) == Err::<
            (),
            CustomError,
        >(CustomError::ListingNotActive),
        cancel_outcome(listing, token_account, listing_key, seller) == Err::<(), CustomError>(
            CustomError::ListingNotActive,
        ),
        purchase_outcome(listing, token_account, buyer_lamports, config, authority_key, listing_key)
            == Err::<(), CustomError>(CustomError::ListingNotActive),
{
}

/// Law: concurrent purchases of one listing are mutually exclusive. The
/// ledger serializes the transactions that touch one listing address, a
/// committed purchase leaves the listing inactive (see `purchase_nft`), and
/// by this lemma the attempt that runs second is refused with the state
/// error and changes nothing.
pub proof fn lemma_second_purchase_fails(
    listing: ListingData,
    seller_token: TokenAccountState,
    buyer_lamports: u64,
    config: MarketConfig,
    authority_key: Pubkey,
    listing_key: Pubkey,
)
    requires
        listing.status is NotActive,
    ensures
        purchase_outcome(listing, seller_token, buyer_lamports, config, authority_key, listing_key)
            == Err::<(), CustomError>(CustomError::ListingNotActive),
{
}

/// Law: a completed sale can be relisted at once by the new owner. A
/// purchase leaves the listing inactive with the buyer as the stored seller
/// and the unit in the buyer's holding, and from exactly that state a new
/// listing request at any positive price is accepted — against the same
/// entity, whose history `list_nft` appends to and never resets.
pub proof fn lemma_relist_after_purchase(
    listing: ListingData,
    buyer_token: TokenAccountState,
    price: u64,
)
    requires
        listing.status is NotActive,
        buyer_token.owner == listing.seller,
        buyer_token.amount == 1,
        price > 0,
    ensures
        list_outcome(listing, buyer_token, listing.seller, price) == Ok::<(), CustomError>(()),
{
}

} // verus!
