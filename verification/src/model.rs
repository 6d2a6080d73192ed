//! The mathematical model of the cache: two maps and the operations on them.
//!
//! Every executable operation of the cache is specified as one of the pure
//! functions below, applied to the cache's view.

use vstd::prelude::*;
use crate::types::{Address, H256, TxRecord};

verus! {

/// The nonces of `pending` that are at least `from`.
pub open spec fn retained(pending: Set<u32>, from: u32) -> Set<u32> {
    Set::new(|n: u32| pending.contains(n) && n >= from)
}

/// The nonce that the store holds for `account`; an account that the store
/// does not know counts as zero.
pub open spec fn stored_nonce(stored: Map<Address, u32>, account: Address) -> u32 {
    if stored.contains_key(account) {
        stored[account]
    } else {
        0
    }
}

/// `end` is where the unbroken run of pending nonces that starts right after
/// `current` stops: every nonce above `current` up to `end` is pending, and
/// the one after `end` is not.
pub open spec fn is_contiguous_end(pending: Set<u32>, current: u32, end: u32) -> bool {
    &&& current <= end
    &&& forall|n: u32| current < n <= end ==> pending.contains(n)
    &&& end < u32::MAX ==> !pending.contains((end + 1) as u32)
}

/// Where the unbroken run of pending nonces that starts right after `current`
/// stops; `current` itself where the nonce after it is not pending.
pub open spec fn contiguous_end(pending: Set<u32>, current: u32) -> u32 {
    choose|end: u32| is_contiguous_end(pending, current, end)
}

/// The state of the cache as mathematical values.
pub struct CacheModel {
    /// The cached transactions, by hash.
    pub transactions: Map<H256, TxRecord>,
    /// For each tracked account, the nonces of the transactions it has pending.
    pub pending_nonces: Map<Address, Set<u32>>,
}

impl CacheModel {
    /// The cache that holds nothing.
    pub open spec fn empty() -> CacheModel {
        CacheModel { transactions: Map::empty(), pending_nonces: Map::empty() }
    }

    /// Each transaction is filed under its own hash, and no tracked account
    /// has an empty set of nonces.
    pub open spec fn well_formed(self) -> bool {
        &&& forall|h: H256| #[trigger]
            self.transactions.contains_key(h) ==> self.transactions[h].hash == h
        &&& forall|a: Address| #[trigger]
            self.pending_nonces.contains_key(a) ==> !self.pending_nonces[a].is_empty()
    }

    /// The transaction filed under `hash`, if there is one.
    pub open spec fn get_tx(self, hash: H256) -> Option<TxRecord> {
        if self.transactions.contains_key(hash) {
            Some(self.transactions[hash])
        } else {
            None
        }
    }

    /// The pending nonces of `account`; none for an account that is not tracked.
    pub open spec fn nonces_for(self, account: Address) -> Set<u32> {
        if self.pending_nonces.contains_key(account) {
            self.pending_nonces[account]
        } else {
            Set::empty()
        }
    }

    /// The accounts that have a pending nonce.
    pub open spec fn tracked_accounts(self) -> Set<Address> {
        self.pending_nonces.dom()
    }

    /// The highest nonce that `account` has used without a gap, counted from
    /// `current`: every nonce above `current` up to it is pending, and the
    /// one after it is not.
    pub open spec fn next_nonce(self, account: Address, current: u32) -> u32 {
        contiguous_end(self.nonces_for(account), current)
    }

    /// The cache after `tx` was recorded: `tx` is filed under its hash, in place
    /// of what was there, and its nonce joins those of its initiator.
    pub open spec fn push(self, tx: TxRecord) -> CacheModel {
        CacheModel {
            transactions: self.transactions.insert(tx.hash, tx),
            pending_nonces: self.pending_nonces.insert(
                tx.initiator_account,
                self.nonces_for(tx.initiator_account).insert(tx.nonce),
            ),
        }
    }

    /// The cache after the transaction under `hash` was dropped. The nonces
    /// stay as they are.
    pub open spec fn remove_tx(self, hash: H256) -> CacheModel {
        CacheModel {
            transactions: self.transactions.remove(hash),
            pending_nonces: self.pending_nonces,
        }
    }

    /// The cache after its nonces were held against the store's: each account
    /// keeps the nonces that are at least the one stored for it, and an account
    /// that keeps none is no longer tracked. The transactions stay as they are.
    pub open spec fn retain_from(self, stored: Map<Address, u32>) -> CacheModel {
        CacheModel {
            transactions: self.transactions,
            pending_nonces: Map::new(
                |a: Address|
                    self.pending_nonces.contains_key(a) && !retained(
                        self.pending_nonces[a],
                        stored_nonce(stored, a),
                    ).is_empty(),
                |a: Address| retained(self.pending_nonces[a], stored_nonce(stored, a)),
            ),
        }
    }
}

/// One change made to a cache.
pub enum CacheOp {
    /// A transaction was recorded.
    Push(TxRecord),
    /// The transaction under a hash was dropped.
    RemoveTx(H256),
    /// The nonces were held against what the store answered.
    RetainFrom(Map<Address, u32>),
}

impl CacheOp {
    /// The change records a transaction that `account` initiated with `nonce`.
    pub open spec fn records(self, account: Address, nonce: u32) -> bool {
        self matches CacheOp::Push(tx) && tx.initiator_account == account && tx.nonce == nonce
    }
}

impl CacheModel {
    /// The cache after `op`.
    pub open spec fn apply(self, op: CacheOp) -> CacheModel {
        match op {
            CacheOp::Push(tx) => self.push(tx),
            CacheOp::RemoveTx(hash) => self.remove_tx(hash),
            CacheOp::RetainFrom(stored) => self.retain_from(stored),
        }
    }

    /// The cache that a new cache becomes by the changes `ops`, made in order.
    pub open spec fn after(ops: Seq<CacheOp>) -> CacheModel
        decreases ops.len(),
    {
        if ops.len() == 0 {
            CacheModel::empty()
        } else {
            CacheModel::after(ops.drop_last()).apply(ops.last())
        }
    }
}

} // verus!
