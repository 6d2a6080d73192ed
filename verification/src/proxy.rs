//! The proxy: what request handlers see of the cache and of the upstream node.

use std::collections::BTreeSet;
use vstd::prelude::*;
use crate::cache::TxCache;
use crate::model::{is_contiguous_end, CacheModel};
use crate::nonces::contiguous_end;
use crate::rpc::{RequestView, RpcRequest, TransactionId};
use crate::sweeper::{NonceSweeper, SweepState};
use crate::types::{Address, CachedTransaction, H256};

verus! {

/// Forwards transactions to the main node and keeps them until they have come
/// back through the node's own store.
#[derive(Debug)]
pub struct TxProxy {
    tx_cache: TxCache,
    main_node_url: String,
}

impl View for TxProxy {
    type V = CacheModel;

    closed spec fn view(&self) -> CacheModel {
        self.tx_cache@
    }
}

impl TxProxy {
    /// The address of the main node, as the proxy was given it.
    pub closed spec fn url(&self) -> Seq<char> {
        self.main_node_url@
    }

    /// A proxy for the main node at `main_node_url`, with an empty cache.
    pub fn new(main_node_url: &str) -> (proxy: TxProxy)
        ensures
            proxy@ == CacheModel::empty(),
            proxy@.well_formed(),
            proxy.url() == main_node_url@,
    {
        TxProxy { tx_cache: TxCache::new(), main_node_url: main_node_url.to_owned() }
    }

    /// The address of the main node.
    pub fn main_node_url(&self) -> (url: &str)
        ensures
            url@ == self.url(),
    {
        self.main_node_url.as_str()
    }

    /// The cache behind the proxy.
    pub fn tx_cache(&self) -> (cache: &TxCache)
        ensures
            cache@ == self@,
    {
        &self.tx_cache
    }

    /// The cache behind the proxy, to change it: what is done to it is done to
    /// the proxy.
    pub fn tx_cache_mut(&mut self) -> (cache: &mut TxCache)
        ensures
            cache@ == old(self)@,
            final(self)@ == final(cache)@,
            final(self).url() == old(self).url(),
    {
        &mut self.tx_cache
    }

    /// A copy of the cached transaction with this hash, if there is one.
    pub fn find_tx(&self, tx_hash: H256) -> (found: Option<CachedTransaction>)
        ensures
            self@.well_formed(),
            match found {
                Some(tx) => self@.get_tx(tx_hash) == Some(tx@),
                None => self@.get_tx(tx_hash) is None,
            },
    {
        self.tx_cache.get_tx(tx_hash)
    }

    /// Drops the cached transaction with this hash. Its nonce stays pending.
    pub fn forget_tx(&mut self, tx_hash: H256)
        ensures
            final(self)@ == old(self)@.remove_tx(tx_hash),
            final(self)@.well_formed(),
            final(self).url() == old(self).url(),
    {
        self.tx_cache.remove_tx(tx_hash);
    }

    /// Records `tx` in the cache.
    pub fn save_tx(&mut self, tx: CachedTransaction)
        ensures
            final(self)@ == old(self)@.push(tx@),
            final(self)@.well_formed(),
            final(self).url() == old(self).url(),
    {
        self.tx_cache.push(tx);
    }

    /// A copy of the pending nonces of `account_address`.
    pub fn get_nonces_by_account(&self, account_address: Address) -> (nonces: BTreeSet<u32>)
        ensures
            self@.well_formed(),
            nonces@ == self@.nonces_for(account_address),
    {
        self.tx_cache.get_nonces_for_account(account_address)
    }

    /// The highest nonce that `account_address` has used without a gap, counted
    /// from `current_nonce`, the nonce that the store holds for it: the end of
    /// the unbroken run of pending nonces that starts right after
    /// `current_nonce`, and `current_nonce` itself where there is no such run.
    pub fn next_nonce_by_initiator_account(
        &self,
        account_address: Address,
        current_nonce: u32,
    ) -> (pending_nonce: u32)
        ensures
            pending_nonce == self@.next_nonce(account_address, current_nonce),
            is_contiguous_end(self@.nonces_for(account_address), current_nonce, pending_nonce),
    {
        let nonces = self.get_nonces_by_account(account_address);
        contiguous_end(&nonces, current_nonce)
    }

    /// The request that hands `tx` in to the main node. No cache is touched: a
    /// transaction is recorded by `save_tx`, once it was accepted.
    pub fn submit_tx(tx: &CachedTransaction) -> (request: RpcRequest)
        requires
            tx.input is Some,
        ensures
            request@ == (RequestView::SendRawTransaction {
                raw_tx: tx@.input->0,
                tx_hash: tx.hash,
            }),
    {
        let raw_tx = match &tx.input {
            Some(input_data) => input_data.clone(),
            None => Vec::new(),
        };
        RpcRequest::SendRawTransaction { raw_tx, tx_hash: tx.hash }
    }

    /// The request that fetches the transaction named by `id` from the main
    /// node.
    pub fn request_tx(id: TransactionId) -> (request: RpcRequest)
        ensures
            request@ == RequestView::for_transaction(id),
    {
        RpcRequest::for_transaction(id)
    }

    /// The request that fetches the details of the transaction with this hash
    /// from the main node.
    pub fn request_tx_details(hash: H256) -> (request: RpcRequest)
        ensures
            request@ == (RequestView::GetTransactionDetails { hash }),
    {
        RpcRequest::GetTransactionDetails { hash }
    }

    /// The task that keeps a proxy's cache in step with the store, about to
    /// start. Its driver gives it the proxy's cache at each step that asks for
    /// it.
    pub fn run_account_nonce_sweeper() -> (sweeper: NonceSweeper)
        ensures
            sweeper@ == SweepState::Idle,
    {
        NonceSweeper::new()
    }
}

} // verus!
