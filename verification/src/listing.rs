use vstd::prelude::*;

use crate::keys::Pubkey;

verus! {

/// Where a listing stands in its cycle. A listing entity is created once and
/// then moves between these two states; it is never destroyed.
#[derive(Clone, Copy, Debug, PartialEq, Eq, Structural)]
pub enum ListingStatus {
    /// Initial state, and the state after a cancel or a completed sale.
    NotActive,
    /// The asset is offered for sale and a delegation grant is outstanding.
    Active,
}

/// Which transition a trade event records.
#[derive(Clone, Copy, Debug, PartialEq, Eq, Structural)]
pub enum TradeAction {
    List,
    UpdatePrice,
    Purchase,
    Cancel,
}

/// One immutable entry of a listing's trade history.
#[derive(Clone, Copy, Debug, PartialEq, Eq, Structural)]
pub struct TradeHistory {
    /// The price the transition concerned: the listed or updated price, the
    /// sale price, or, for a cancel, the last asked price kept for audit.
    pub price: u64,
    /// When the transition happened.
    pub timestamp: i64,
    /// Which transition it was.
    pub action: TradeAction,
}

/// How many trade events the persisted layout reserves room for at entity
/// creation. Appends themselves perform no capacity check; what should
/// happen to a resale chain longer than this is deliberately left open.
pub const MAX_HISTORY: usize = 16;

/// One listing entity per asset, living at a deterministic address derived
/// from the asset identifier — the address is the lookup key, so at most one
/// listing per asset exists by construction and a relist reuses the entity.
#[derive(Clone, Debug)]
pub struct ListingData {
    /// Whether the asset is currently offered for sale.
    pub status: ListingStatus,
    /// The current rights-holder: the only party that may reprice or cancel,
    /// and the one settlement pays. A completed sale reassigns it to the
    /// buyer so the new owner can immediately relist.
    pub seller: Pubkey,
    /// The asset under escrow.
    pub mint: Pubkey,
    /// The asked price in the smallest currency unit; greater than zero
    /// whenever the listing is active.
    pub price: u64,
    /// Timestamp of the most recent listing transition.
    pub created_at: i64,
    /// Append-only record of every transition of this entity, growing across
    /// relist cycles and never reset.
    pub history: Vec<TradeHistory>,
}

impl ListingData {
    /// A freshly created listing entity: inactive, with an empty history,
    /// as the runtime zero-initializes it on first use.
    pub fn new() -> (l: ListingData)
        ensures
            l.status is NotActive,
            l.seller == (Pubkey { id: 0 }),
            l.mint == (Pubkey { id: 0 }),
            l.price == 0,
            l.created_at == 0,
            l.history@ == Seq::<TradeHistory>::empty(),
    {
        ListingData {
            status: ListingStatus::NotActive,
            seller: Pubkey { id: 0 },
            mint: Pubkey { id: 0 },
            price: 0,
            created_at: 0,
            history: Vec::new(),
        }
    }

    /// The most recent trade event.
    pub open spec fn spec_last_event(self) -> TradeHistory
        recommends
            self.history@.len() > 0,
    {
        self.history@.last()
    }

    /// The most recent trade event, if any transition has been recorded.
    pub fn last_event(&self) -> (e: Option<TradeHistory>)
        ensures
            self.history@.len() == 0 ==> e is None,
            self.history@.len() > 0 ==> e == Some(self.spec_last_event()),
    {
        if self.history.len() == 0 {
            None
        } else {
            Some(self.history[self.history.len() - 1])
        }
    }
}

} // verus!
