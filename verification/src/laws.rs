//! What holds of the cache's operations taken together, proved of the model
//! that their contracts are stated over.

use vstd::prelude::*;
use crate::model::{
    contiguous_end, is_contiguous_end, retained, stored_nonce, CacheModel, CacheOp,
};
use crate::types::{Address, TxRecord, H256};

verus! {

/// A transaction that was recorded is found under its hash, as it was
/// recorded, and its nonce is among the pending nonces of its initiator.
pub proof fn law_recorded_is_found(cache: CacheModel, tx: TxRecord)
    ensures
        cache.push(tx).get_tx(tx.hash) == Some(tx),
        cache.push(tx).nonces_for(tx.initiator_account).contains(tx.nonce),
{
}

/// Recording a transaction changes nothing but the entry under its hash and
/// the nonces of its initiator, to which it adds the transaction's nonce and
/// no other.
pub proof fn law_recording_is_local(cache: CacheModel, tx: TxRecord)
    ensures
        forall|h: H256| h != tx.hash ==> cache.push(tx).get_tx(h) == cache.get_tx(h),
        forall|a: Address|
            a != tx.initiator_account ==> cache.push(tx).nonces_for(a) == cache.nonces_for(a),
        cache.push(tx).nonces_for(tx.initiator_account) == cache.nonces_for(
            tx.initiator_account,
        ).insert(tx.nonce),
{
}

/// A transaction that was recorded and then dropped is not found any more,
/// but its nonce is still among the pending nonces of its initiator.
pub proof fn law_dropped_keeps_its_nonce(cache: CacheModel, tx: TxRecord)
    ensures
        cache.push(tx).remove_tx(tx.hash).get_tx(tx.hash) is None,
        cache.push(tx).remove_tx(tx.hash).nonces_for(tx.initiator_account).contains(tx.nonce),
{
}

/// Dropping a transaction leaves every account's nonces, and every other
/// transaction, as they are.
pub proof fn law_dropping_keeps_all_nonces(cache: CacheModel, hash: H256)
    ensures
        cache.remove_tx(hash).pending_nonces == cache.pending_nonces,
        forall|h: H256| h != hash ==> cache.remove_tx(hash).get_tx(h) == cache.get_tx(h),
{
}

/// Recording the same transaction a second time changes nothing: not the
/// transactions, not the nonces, not how many nonces its initiator has.
pub proof fn law_recording_twice_is_recording_once(cache: CacheModel, tx: TxRecord)
    ensures
        cache.push(tx).push(tx) == cache.push(tx),
        cache.push(tx).push(tx).nonces_for(tx.initiator_account).len() == cache.push(
            tx,
        ).nonces_for(tx.initiator_account).len(),
{
    let once = cache.push(tx);
    let twice = once.push(tx);
    assert(twice.transactions =~= once.transactions);
    assert(once.nonces_for(tx.initiator_account).insert(tx.nonce) =~= once.nonces_for(
        tx.initiator_account,
    ));
    assert(twice.pending_nonces =~= once.pending_nonces);
}

/// Holding the nonces against the store takes a prefix away and nothing else:
/// an account is left with its nonces from the stored one on, so every nonce
/// that goes is below every nonce that stays; and the transactions stay.
pub proof fn law_retain_drops_a_prefix(
    cache: CacheModel,
    stored: Map<Address, u32>,
    account: Address,
)
    ensures
        cache.retain_from(stored).nonces_for(account) == retained(
            cache.nonces_for(account),
            stored_nonce(stored, account),
        ),
        forall|gone: u32, kept: u32|
            cache.nonces_for(account).contains(gone) && !cache.retain_from(stored).nonces_for(
                account,
            ).contains(gone) && cache.retain_from(stored).nonces_for(account).contains(kept)
                ==> gone < kept,
        cache.retain_from(stored).transactions == cache.transactions,
{
    let before = cache.nonces_for(account);
    let after = cache.retain_from(stored).nonces_for(account);
    let expected = retained(before, stored_nonce(stored, account));
    if cache.retain_from(stored).pending_nonces.contains_key(account) {
        assert(after =~= expected);
    } else {
        if cache.pending_nonces.contains_key(account) {
            assert(expected.is_empty());
        }
        assert(after =~= expected);
    }
}

/// After the nonces were held against the store, an account is tracked just
/// when it had a nonce that is at least the stored one; so none is tracked
/// with an empty set of nonces.
pub proof fn law_retain_drops_settled_accounts(
    cache: CacheModel,
    stored: Map<Address, u32>,
    account: Address,
)
    ensures
        cache.retain_from(stored).tracked_accounts().contains(account) <==> exists|n: u32|
            cache.nonces_for(account).contains(n) && n >= stored_nonce(stored, account),
        cache.retain_from(stored).tracked_accounts().contains(account)
            ==> !cache.retain_from(stored).nonces_for(account).is_empty(),
{
    let kept = retained(cache.nonces_for(account), stored_nonce(stored, account));
    if cache.retain_from(stored).tracked_accounts().contains(account) {
        assert(!kept.is_empty());
        let n = choose|n: u32| kept.contains(n);
        assert(cache.nonces_for(account).contains(n) && n >= stored_nonce(stored, account));
    }
    if exists|n: u32| cache.nonces_for(account).contains(n) && n >= stored_nonce(stored, account) {
        let n = choose|n: u32|
            cache.nonces_for(account).contains(n) && n >= stored_nonce(stored, account);
        assert(kept.contains(n));
    }
}

/// Every change keeps a well-formed cache well-formed.
pub proof fn law_well_formed_is_kept(cache: CacheModel, op: CacheOp)
    requires
        cache.well_formed(),
    ensures
        cache.apply(op).well_formed(),
{
    if let CacheOp::Push(tx) = op {
        let pushed = cache.push(tx);
        assert forall|a: Address| #[trigger] pushed.pending_nonces.contains_key(a) implies
            !pushed.pending_nonces[a].is_empty() by {
            if a == tx.initiator_account {
                assert(pushed.pending_nonces[a].contains(tx.nonce));
            }
        }
    }
}

/// The run of pending nonces after a given nonce stops at one place only.
pub proof fn law_contiguous_end_is_unique(pending: Set<u32>, current: u32, a: u32, b: u32)
    requires
        is_contiguous_end(pending, current, a),
        is_contiguous_end(pending, current, b),
    ensures
        a == b,
{
    if a < b {
        assert(pending.contains((a + 1) as u32));
    }
    if b < a {
        assert(pending.contains((b + 1) as u32));
    }
}

/// A nonce is the end of the run after `current` just when the run reaches it
/// and does not go on: there is one such nonce, whatever is pending.
pub proof fn law_contiguous_end_is_the_end(pending: Set<u32>, current: u32, end: u32)
    ensures
        is_contiguous_end(pending, current, contiguous_end(pending, current)),
        is_contiguous_end(pending, current, end) <==> end == contiguous_end(pending, current),
{
    lemma_run_stops(pending, current, current);
    let stop = choose|stop: u32| is_contiguous_end(pending, current, stop);
    if is_contiguous_end(pending, current, end) {
        law_contiguous_end_is_unique(pending, current, end, stop);
    }
}

/// A run that has got from `current` to `reached` stops somewhere.
proof fn lemma_run_stops(pending: Set<u32>, current: u32, reached: u32)
    requires
        current <= reached,
        forall|n: u32| current < n <= reached ==> pending.contains(n),
    ensures
        exists|end: u32| is_contiguous_end(pending, current, end),
    decreases u32::MAX - reached,
{
    if reached < u32::MAX && pending.contains((reached + 1) as u32) {
        lemma_run_stops(pending, current, (reached + 1) as u32);
    } else {
        assert(is_contiguous_end(pending, current, reached));
    }
}

/// Where the nonce after `current` is not pending, there is no run: it stops
/// at `current`. This is so for every account without pending nonces.
pub proof fn law_no_run_without_successor(pending: Set<u32>, current: u32)
    requires
        current == u32::MAX || !pending.contains((current + 1) as u32),
    ensures
        contiguous_end(pending, current) == current,
{
    assert(is_contiguous_end(pending, current, current));
    law_contiguous_end_is_the_end(pending, current, current);
}

/// Holding the nonces against the store does not move the end of a run that
/// is counted from the stored nonce, or from any nonce not more than one below
/// it.
pub proof fn law_retain_keeps_next_nonce(
    cache: CacheModel,
    stored: Map<Address, u32>,
    account: Address,
    current: u32,
)
    requires
        stored_nonce(stored, account) <= current + 1,
    ensures
        cache.retain_from(stored).next_nonce(account, current) == cache.next_nonce(
            account,
            current,
        ),
{
    let end = cache.next_nonce(account, current);
    law_contiguous_end_is_the_end(cache.nonces_for(account), current, end);
    law_retain_drops_a_prefix(cache, stored, account);
    assert(is_contiguous_end(cache.retain_from(stored).nonces_for(account), current, end));
    law_contiguous_end_is_the_end(cache.retain_from(stored).nonces_for(account), current, end);
}

/// Whatever was done to a cache since it was new, it is well-formed: each
/// transaction is filed under its own hash, and no account is tracked with an
/// empty set of nonces.
pub proof fn law_every_cache_is_well_formed(ops: Seq<CacheOp>)
    ensures
        CacheModel::after(ops).well_formed(),
    decreases ops.len(),
{
    if ops.len() > 0 {
        law_every_cache_is_well_formed(ops.drop_last());
        law_well_formed_is_kept(CacheModel::after(ops.drop_last()), ops.last());
    }
}

/// Whatever was done to a cache since it was new, each of its pending nonces
/// is that of a transaction that its account initiated and that was recorded
/// at some point; the transaction may have been dropped since.
pub proof fn law_pending_nonces_were_recorded(ops: Seq<CacheOp>, account: Address, nonce: u32)
    requires
        CacheModel::after(ops).nonces_for(account).contains(nonce),
    ensures
        exists|i: int| 0 <= i < ops.len() && (#[trigger] ops[i]).records(account, nonce),
    decreases ops.len(),
{
    if ops.len() > 0 {
        let earlier = ops.drop_last();
        let before = CacheModel::after(earlier);
        if ops.last().records(account, nonce) {
            assert(ops[ops.len() - 1] == ops.last());
        } else {
            if let CacheOp::RetainFrom(stored) = ops.last() {
                law_retain_drops_a_prefix(before, stored, account);
            }
            assert(before.nonces_for(account).contains(nonce));
            law_pending_nonces_were_recorded(earlier, account, nonce);
            let i = choose|i: int|
                0 <= i < earlier.len() && (#[trigger] earlier[i]).records(account, nonce);
            assert(ops[i] == earlier[i]);
        }
    }
}

} // verus!
