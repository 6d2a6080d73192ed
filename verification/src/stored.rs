//! What the store answers when it is asked for the nonces of a list of accounts.

use std::collections::BTreeMap;
use vstd::prelude::*;
use crate::model::stored_nonce;
use crate::types::Address;

verus! {

/// The nonce that the store holds for each account it knows of those it was
/// asked about.
#[derive(Debug)]
pub struct StoredNonces {
    by_account: BTreeMap<(u32, u128), u32>,
}

impl View for StoredNonces {
    type V = Map<Address, u32>;

    closed spec fn view(&self) -> Map<Address, u32> {
        Map::new(
            |a: Address| self.by_account@.contains_key(a.key()),
            |a: Address| self.by_account@[a.key()],
        )
    }
}

impl StoredNonces {
    /// An answer that knows no account.
    pub fn new() -> (stored: StoredNonces)
        ensures
            stored@ == Map::<Address, u32>::empty(),
    {
        let stored = StoredNonces { by_account: BTreeMap::new() };
        assert(stored@ =~= Map::<Address, u32>::empty());
        stored
    }

    /// Notes that the store holds `nonce` for `account`, in place of what was
    /// noted for it before.
    pub fn insert(&mut self, account: Address, nonce: u32)
        ensures
            final(self)@ == old(self)@.insert(account, nonce),
    {
        self.by_account.insert(account.to_key(), nonce);
        assert(self@ =~= old(self)@.insert(account, nonce));
    }

    /// The nonce held for `account`; zero for an account that the store does
    /// not know.
    pub fn nonce_for(&self, account: Address) -> (nonce: u32)
        ensures
            nonce == stored_nonce(self@, account),
    {
        match self.by_account.get(&account.to_key()) {
            Some(nonce) => *nonce,
            None => 0,
        }
    }
}

} // verus!
