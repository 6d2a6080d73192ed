//! The cache proper: transactions by hash, and pending nonces by account.

use std::collections::BTreeMap;
use std::collections::BTreeSet;
use vstd::prelude::*;
use vstd::std_specs::iter::IteratorSpec;
use crate::model::{retained, stored_nonce, CacheModel};
use crate::nonces::retain_from;
use crate::stored::StoredNonces;
use crate::types::{Address, CachedTransaction, H256};

verus! {

/// Transactions that were forwarded upstream, with the nonces they occupy.
///
/// The two maps change together, under one owner: a caller that shares the
/// cache puts the whole of it behind one lock.
#[derive(Debug)]
pub struct TxCache {
    tx_cache: BTreeMap<(u128, u128), CachedTransaction>,
    nonces_by_account: BTreeMap<(u32, u128), BTreeSet<u32>>,
}

impl View for TxCache {
    type V = CacheModel;

    closed spec fn view(&self) -> CacheModel {
        CacheModel {
            transactions: Map::new(
                |h: H256| self.tx_cache@.contains_key(h.key()),
                |h: H256| self.tx_cache@[h.key()]@,
            ),
            pending_nonces: Map::new(
                |a: Address| self.nonces_by_account@.contains_key(a.key()),
                |a: Address| self.nonces_by_account@[a.key()]@,
            ),
        }
    }
}

impl Default for TxCache {
    fn default() -> (cache: TxCache)
        ensures
            cache@ == CacheModel::empty(),
    {
        TxCache::new()
    }
}

impl TxCache {
    #[verifier::type_invariant]
    spec fn inv(self) -> bool {
        &&& forall|k: (u128, u128)| #[trigger]
            self.tx_cache@.contains_key(k) ==> self.tx_cache@[k].hash.key() == k
        &&& forall|k: (u32, u128)| #[trigger]
            self.nonces_by_account@.contains_key(k) ==> !self.nonces_by_account@[k]@.is_empty()
    }

    /// An empty cache.
    pub fn new() -> (cache: TxCache)
        ensures
            cache@ == CacheModel::empty(),
            cache@.well_formed(),
    {
        let cache = TxCache { tx_cache: BTreeMap::new(), nonces_by_account: BTreeMap::new() };
        assert(cache@.transactions =~= Map::empty());
        assert(cache@.pending_nonces =~= Map::empty());
        cache
    }

    /// Looks `tx_hash` up and returns a copy of the transaction filed under it.
    pub fn get_tx(&self, tx_hash: H256) -> (found: Option<CachedTransaction>)
        ensures
            self@.well_formed(),
            match found {
                Some(tx) => self@.get_tx(tx_hash) == Some(tx@),
                None => self@.get_tx(tx_hash) is None,
            },
    {
        proof {
            use_type_invariant(self);
        }
        match self.tx_cache.get(&tx_hash.to_key()) {
            Some(tx) => Some(tx.clone()),
            None => None,
        }
    }

    /// Records `tx`: files it under its hash, in place of what was filed there,
    /// and adds its nonce to those of its initiator.
    pub fn push(&mut self, tx: CachedTransaction)
        ensures
            final(self)@ == old(self)@.push(tx@),
            final(self)@.well_formed(),
    {
        proof {
            use_type_invariant(&*self);
        }
        let account = tx.initiator_account.to_key();
        let mut nonces_by_account = BTreeMap::new();
        std::mem::swap(&mut nonces_by_account, &mut self.nonces_by_account);
        let mut tx_cache = BTreeMap::new();
        std::mem::swap(&mut tx_cache, &mut self.tx_cache);

        let mut nonces = match nonces_by_account.remove(&account) {
            Some(nonces) => nonces,
            None => BTreeSet::new(),
        };
        nonces.insert(tx.nonce);
        nonces_by_account.insert(account, nonces);
        let ghost record = tx@;
        tx_cache.insert(tx.hash.to_key(), tx);

        self.nonces_by_account = nonces_by_account;
        self.tx_cache = tx_cache;
        assert(self@.transactions =~= old(self)@.push(record).transactions);
        assert(self@.pending_nonces =~= old(self)@.push(record).pending_nonces);
    }

    /// Drops the transaction filed under `tx_hash`, if there is one. The nonces
    /// are left alone: they change only when the store has moved on.
    pub fn remove_tx(&mut self, tx_hash: H256)
        ensures
            final(self)@ == old(self)@.remove_tx(tx_hash),
            final(self)@.well_formed(),
    {
        proof {
            use_type_invariant(&*self);
        }
        let mut tx_cache = BTreeMap::new();
        std::mem::swap(&mut tx_cache, &mut self.tx_cache);
        tx_cache.remove(&tx_hash.to_key());
        self.tx_cache = tx_cache;
        assert(self@.transactions =~= old(self)@.remove_tx(tx_hash).transactions);
        assert(self@.pending_nonces =~= old(self)@.remove_tx(tx_hash).pending_nonces);
    }

    /// A copy of the pending nonces of `account_address`; an empty set for an
    /// account that is not tracked.
    pub fn get_nonces_for_account(&self, account_address: Address) -> (nonces: BTreeSet<u32>)
        ensures
            self@.well_formed(),
            nonces@ == self@.nonces_for(account_address),
    {
        proof {
            use_type_invariant(self);
        }
        match self.nonces_by_account.get(&account_address.to_key()) {
            Some(nonces) => nonces.clone(),
            None => BTreeSet::new(),
        }
    }

    /// The accounts that have a pending nonce, each once.
    pub fn tracked_accounts(&self) -> (accounts: Vec<Address>)
        ensures
            self@.well_formed(),
            accounts@.to_set() == self@.tracked_accounts(),
            accounts@.no_duplicates(),
    {
        proof {
            use_type_invariant(self);
        }
        let mut accounts: Vec<Address> = Vec::new();
        for k in it: self.nonces_by_account.keys()
            invariant
                it.seq() == self.nonces_by_account.keys().remaining(),
                accounts@.len() == it.index(),
                forall|i: int|
                    0 <= i < it.index() ==> accounts@[i] == Address::of_key(*it.seq()[i]),
        {
            accounts.push(Address::from_key(*k));
        }
        proof {
            let keys = self.nonces_by_account.keys().remaining();
            assert(keys.unref().to_set() == self.nonces_by_account@.dom());
            assert forall|a: Address|
                accounts@.to_set().contains(a) == self@.tracked_accounts().contains(a) by {
                if accounts@.contains(a) {
                    let i = choose|i: int| 0 <= i < accounts@.len() && accounts@[i] == a;
                    assert(keys.unref()[i] == a.key());
                    assert(keys.unref().contains(a.key()));
                }
                if self.nonces_by_account@.contains_key(a.key()) {
                    assert(keys.unref().to_set().contains(a.key()));
                    let i = choose|i: int| 0 <= i < keys.len() && keys.unref()[i] == a.key();
                    assert(accounts@[i] == a);
                }
            }
            assert(accounts@.to_set() =~= self@.tracked_accounts());
            assert forall|i: int, j: int|
                0 <= i < accounts@.len() && 0 <= j < accounts@.len() && i != j implies
                accounts@[i] != accounts@[j] by {
                assert(keys[i] != keys[j]);
            }
        }
        accounts
    }

    /// Holds the pending nonces against `stored`: each account keeps the nonces
    /// that are at least the one stored for it (zero where `stored` does not
    /// know the account), and an account that keeps none is no longer tracked.
    pub fn retain_from(&mut self, stored: &StoredNonces)
        ensures
            final(self)@ == old(self)@.retain_from(stored@),
            final(self)@.well_formed(),
    {
        proof {
            use_type_invariant(&*self);
        }
        let mut before = BTreeMap::new();
        std::mem::swap(&mut before, &mut self.nonces_by_account);
        let mut after: BTreeMap<(u32, u128), BTreeSet<u32>> = BTreeMap::new();
        for k in it: before.keys()
            invariant
                it.seq() == before.keys().remaining(),
                it.seq().unref().to_set() == before@.dom(),
                forall|j: (u32, u128)|
                    after@.contains_key(j) <==> (exists|i: int|
                        0 <= i < it.index() && *it.seq()[i] == j) && !retained(
                        before@[j]@,
                        stored_nonce(stored@, Address::of_key(j)),
                    ).is_empty(),
                forall|j: (u32, u128)|
                    after@.contains_key(j) ==> before@.contains_key(j) && after@[j]@ == retained(
                        before@[j]@,
                        stored_nonce(stored@, Address::of_key(j)),
                    ),
        {
            if let Some(nonces) = before.get(k) {
                let kept = retain_from(nonces, stored.nonce_for(Address::from_key(*k)));
                if !kept.is_empty() {
                    after.insert(*k, kept);
                }
            }
        }
        self.nonces_by_account = after;
        proof {
            let keys = before.keys().remaining();
            let target = old(self)@.retain_from(stored@).pending_nonces;
            let kept = self@.pending_nonces;
            assert forall|a: Address| kept.contains_key(a) implies target.contains_key(a)
                && kept[a] == target[a] by {
                assert(Address::of_key(a.key()) == a);
                let i = choose|i: int| 0 <= i < keys.len() && *keys[i] == a.key();
                assert(keys.unref()[i] == a.key());
                assert(keys.unref().contains(a.key()));
            }
            assert forall|a: Address| target.contains_key(a) implies kept.contains_key(a) by {
                assert(Address::of_key(a.key()) == a);
                assert(keys.unref().to_set().contains(a.key()));
                let i = choose|i: int| 0 <= i < keys.len() && keys.unref()[i] == a.key();
                assert(*keys[i] == a.key());
            }
            assert(kept =~= target);
            assert(self@.transactions =~= old(self)@.retain_from(stored@).transactions);
        }
    }
}

} // verus!
