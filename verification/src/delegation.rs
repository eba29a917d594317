use vstd::prelude::*;

use crate::keys::Pubkey;

verus! {

/// The holding of one asset by one owner, together with its delegation
/// record: the fields of a token holding that the core reads and writes.
///
/// A delegation grant is scoped: it authorizes `delegate` to move up to
/// `delegated_amount` units out of this holding without moving custody now.
/// At most one grant is live per holding, so changing a grant means revoking
/// the old one before issuing the new one.
#[derive(Clone, Copy, Debug)]
pub struct TokenAccountState {
    /// The asset this holding is denominated in.
    pub mint: Pubkey,
    /// The party that owns the holding.
    pub owner: Pubkey,
    /// How many units the holding contains.
    pub amount: u64,
    /// The address the live grant favors, if one is outstanding.
    pub delegate: Option<Pubkey>,
    /// How many units the live grant still covers.
    pub delegated_amount: u64,
}

impl TokenAccountState {
    /// The grant named by `key` is outstanding on this holding.
    pub open spec fn spec_delegate_is(self, key: Pubkey) -> bool {
        self.delegate == Some(key)
    }

    /// A live grant in favor of `key` covers at least one unit.
    pub open spec fn spec_delegated_to(self, key: Pubkey) -> bool {
        self.delegate == Some(key) && self.delegated_amount >= 1
    }

    /// Whether the delegation record names exactly `key`.
    pub fn delegate_is(&self, key: Pubkey) -> (r: bool)
        ensures
            r == self.spec_delegate_is(key),
    {
        match self.delegate {
            Some(d) => d == key,
            None => false,
        }
    }

    /// Whether a live grant in favor of `key` covers at least one unit.
    pub fn delegated_to(&self, key: Pubkey) -> (r: bool)
        ensures
            r == self.spec_delegated_to(key),
    {
        match self.delegate {
            Some(d) => d == key && self.delegated_amount >= 1,
            None => false,
        }
    }
}

/// Grant `delegate` the right to move `amount` units out of `account`,
/// replacing whatever grant was outstanding. Custody does not move.
pub fn approve(account: &mut TokenAccountState, delegate: Pubkey, amount: u64)
    ensures
        final(account).delegate == Some(delegate),
        final(account).delegated_amount == amount,
        final(account).mint == old(account).mint,
        final(account).owner == old(account).owner,
        final(account).amount == old(account).amount,
{
    account.delegate = Some(delegate);
    account.delegated_amount = amount;
}

/// Remove any outstanding grant on `account`.
pub fn revoke(account: &mut TokenAccountState)
    ensures
        final(account).delegate is None,
        final(account).delegated_amount == 0,
        final(account).mint == old(account).mint,
        final(account).owner == old(account).owner,
        final(account).amount == old(account).amount,
{
    account.delegate = None;
    account.delegated_amount = 0;
}

/// Move `amount` units from `from` to `to` on the authority of the grant
/// held by `delegate_key`: the transfer succeeds only against a live grant
/// that covers at least `amount`, consumes that much of the grant, and
/// clears the grant once it is used up.
pub fn execute_transfer(
    from: &mut TokenAccountState,
    to: &mut TokenAccountState,
    delegate_key: Pubkey,
    amount: u64,
)
    requires
        old(from).delegate == Some(delegate_key),
        old(from).delegated_amount >= amount,
        old(from).amount >= amount,
        old(to).amount + amount <= u64::MAX,
        old(from).mint == old(to).mint,
    ensures
        final(from).amount == old(from).amount - amount,
        final(to).amount == old(to).amount + amount,
        final(from).delegated_amount == old(from).delegated_amount - amount,
        final(from).delegate == (if old(from).delegated_amount == amount {
            None::<Pubkey>
        } else {
            old(from).delegate
        }),
        final(from).mint == old(from).mint,
        final(from).owner == old(from).owner,
        final(to).mint == old(to).mint,
        final(to).owner == old(to).owner,
        final(to).delegate == old(to).delegate,
        final(to).delegated_amount == old(to).delegated_amount,
{
    from.amount = from.amount - amount;
    to.amount = to.amount + amount;
    from.delegated_amount = from.delegated_amount - amount;
    if from.delegated_amount == 0 {
        from.delegate = None;
    }
}

} // verus!
