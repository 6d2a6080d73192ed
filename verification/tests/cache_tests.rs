use std::collections::BTreeSet;

use tx_proxy::cache::TxCache;
use tx_proxy::stored::StoredNonces;
use tx_proxy::types::{Address, CachedTransaction, H256};

fn account(n: u32) -> Address {
    Address { hi: n, lo: 0xaaaa_0000_0000_0000_0000_0000_0000_0000 + n as u128 }
}

fn hash(n: u128) -> H256 {
    H256 { hi: 0x1234_5678_9abc_def0_0000_0000_0000_0000, lo: n }
}

fn tx(id: u128, from: Address, nonce: u32) -> CachedTransaction {
    CachedTransaction {
        hash: hash(id),
        initiator_account: from,
        nonce,
        input: Some(vec![0x02, id as u8, nonce as u8]),
    }
}

fn nonces(of: &[u32]) -> BTreeSet<u32> {
    of.iter().copied().collect()
}

#[test]
fn new_cache_is_empty() {
    let cache = TxCache::new();
    assert_eq!(cache.get_tx(hash(1)), None);
    assert!(cache.get_nonces_for_account(account(1)).is_empty());
    assert!(cache.tracked_accounts().is_empty());
}

#[test]
fn default_cache_is_empty() {
    let cache = TxCache::default();
    assert_eq!(cache.get_tx(hash(1)), None);
    assert!(cache.tracked_accounts().is_empty());
}

#[test]
fn pushed_transaction_is_found_with_its_nonce() {
    let mut cache = TxCache::new();
    let t = tx(1, account(1), 7);
    cache.push(t.clone());
    assert_eq!(cache.get_tx(hash(1)), Some(t));
    assert!(cache.get_nonces_for_account(account(1)).contains(&7));
    assert_eq!(cache.tracked_accounts(), vec![account(1)]);
}

#[test]
fn lookup_returns_an_independent_copy() {
    let mut cache = TxCache::new();
    cache.push(tx(1, account(1), 7));
    let mut copy = cache.get_tx(hash(1)).unwrap();
    copy.nonce = 99;
    copy.input = None;
    assert_eq!(cache.get_tx(hash(1)), Some(tx(1, account(1), 7)));

    let mut set = cache.get_nonces_for_account(account(1));
    set.insert(1000);
    set.remove(&7);
    assert_eq!(cache.get_nonces_for_account(account(1)), nonces(&[7]));
}

#[test]
fn lookup_of_unknown_hash_finds_nothing() {
    let mut cache = TxCache::new();
    cache.push(tx(1, account(1), 7));
    assert_eq!(cache.get_tx(hash(2)), None);
    // Same low word, other high word: another hash.
    assert_eq!(cache.get_tx(H256 { hi: 0, lo: 1 }), None);
}

#[test]
fn accounts_that_differ_in_one_word_are_kept_apart() {
    let mut cache = TxCache::new();
    let a = Address { hi: 1, lo: 5 };
    let b = Address { hi: 2, lo: 5 };
    let c = Address { hi: 1, lo: 6 };
    cache.push(tx(1, a, 10));
    cache.push(tx(2, b, 20));
    cache.push(tx(3, c, 30));
    assert_eq!(cache.get_nonces_for_account(a), nonces(&[10]));
    assert_eq!(cache.get_nonces_for_account(b), nonces(&[20]));
    assert_eq!(cache.get_nonces_for_account(c), nonces(&[30]));
    let mut accounts = cache.tracked_accounts();
    accounts.sort_by_key(|a| (a.hi, a.lo));
    assert_eq!(accounts, vec![a, c, b]);
}

#[test]
fn removed_transaction_is_gone_but_its_nonce_stays() {
    let mut cache = TxCache::new();
    cache.push(tx(1, account(1), 7));
    cache.remove_tx(hash(1));
    assert_eq!(cache.get_tx(hash(1)), None);
    assert_eq!(cache.get_nonces_for_account(account(1)), nonces(&[7]));
    assert_eq!(cache.tracked_accounts(), vec![account(1)]);
}

#[test]
fn removing_an_unknown_hash_changes_nothing() {
    let mut cache = TxCache::new();
    cache.push(tx(1, account(1), 7));
    cache.remove_tx(hash(2));
    assert_eq!(cache.get_tx(hash(1)), Some(tx(1, account(1), 7)));
    assert_eq!(cache.get_nonces_for_account(account(1)), nonces(&[7]));
}

#[test]
fn pushing_twice_is_pushing_once() {
    let mut cache = TxCache::new();
    cache.push(tx(1, account(1), 7));
    let size_after_first = cache.get_nonces_for_account(account(1)).len();
    cache.push(tx(1, account(1), 7));
    assert_eq!(cache.get_nonces_for_account(account(1)).len(), size_after_first);
    assert_eq!(cache.get_nonces_for_account(account(1)), nonces(&[7]));
    assert_eq!(cache.get_tx(hash(1)), Some(tx(1, account(1), 7)));
    assert_eq!(cache.tracked_accounts(), vec![account(1)]);
    // One entry under the hash: once it is removed, nothing is left of it.
    cache.remove_tx(hash(1));
    assert_eq!(cache.get_tx(hash(1)), None);
}

#[test]
fn pushing_under_a_known_hash_overwrites_the_transaction() {
    let mut cache = TxCache::new();
    cache.push(tx(1, account(1), 7));
    let other = CachedTransaction {
        hash: hash(1),
        initiator_account: account(1),
        nonce: 7,
        input: Some(vec![0xff]),
    };
    cache.push(other.clone());
    assert_eq!(cache.get_tx(hash(1)), Some(other));
    assert_eq!(cache.get_nonces_for_account(account(1)), nonces(&[7]));
}

#[test]
fn two_transactions_with_one_nonce_share_it() {
    let mut cache = TxCache::new();
    cache.push(tx(1, account(1), 7));
    cache.push(tx(2, account(1), 7));
    assert_eq!(cache.get_nonces_for_account(account(1)), nonces(&[7]));
    assert_eq!(cache.get_tx(hash(1)), Some(tx(1, account(1), 7)));
    assert_eq!(cache.get_tx(hash(2)), Some(tx(2, account(1), 7)));
}

#[test]
fn nonces_come_back_in_ascending_order() {
    let mut cache = TxCache::new();
    for (id, nonce) in [(1u128, 9u32), (2, 3), (3, 7), (4, 4), (5, 0), (6, u32::MAX)] {
        cache.push(tx(id, account(1), nonce));
    }
    let got: Vec<u32> = cache.get_nonces_for_account(account(1)).into_iter().collect();
    assert_eq!(got, vec![0, 3, 4, 7, 9, u32::MAX]);
}

#[test]
fn retain_drops_the_nonces_below_the_stored_one() {
    let mut cache = TxCache::new();
    for (id, nonce) in [(1u128, 3u32), (2, 4), (3, 7), (4, 9)] {
        cache.push(tx(id, account(1), nonce));
    }
    let mut stored = StoredNonces::new();
    stored.insert(account(1), 6);
    cache.retain_from(&stored);
    assert_eq!(cache.get_nonces_for_account(account(1)), nonces(&[7, 9]));
    assert_eq!(cache.tracked_accounts(), vec![account(1)]);
}

#[test]
fn retain_keeps_the_stored_nonce_itself() {
    let mut cache = TxCache::new();
    for (id, nonce) in [(1u128, 6u32), (2, 7), (3, 8)] {
        cache.push(tx(id, account(1), nonce));
    }
    let mut stored = StoredNonces::new();
    stored.insert(account(1), 7);
    cache.retain_from(&stored);
    assert_eq!(cache.get_nonces_for_account(account(1)), nonces(&[7, 8]));
}

#[test]
fn retain_drops_an_account_that_keeps_no_nonce() {
    let mut cache = TxCache::new();
    for (id, nonce) in [(1u128, 3u32), (2, 4), (3, 7), (4, 9)] {
        cache.push(tx(id, account(1), nonce));
    }
    cache.push(tx(5, account(2), 1));
    let mut stored = StoredNonces::new();
    stored.insert(account(1), 10);
    cache.retain_from(&stored);
    assert!(cache.get_nonces_for_account(account(1)).is_empty());
    assert_eq!(cache.tracked_accounts(), vec![account(2)]);
}

#[test]
fn retain_takes_an_unknown_account_for_zero() {
    let mut cache = TxCache::new();
    cache.push(tx(1, account(1), 0));
    cache.push(tx(2, account(1), 5));
    cache.push(tx(3, account(2), 8));
    let mut stored = StoredNonces::new();
    stored.insert(account(2), 9);
    cache.retain_from(&stored);
    assert_eq!(cache.get_nonces_for_account(account(1)), nonces(&[0, 5]));
    assert!(cache.get_nonces_for_account(account(2)).is_empty());
    assert_eq!(cache.tracked_accounts(), vec![account(1)]);
}

#[test]
fn retain_leaves_the_transactions_alone() {
    let mut cache = TxCache::new();
    cache.push(tx(1, account(1), 3));
    cache.push(tx(2, account(1), 8));
    let mut stored = StoredNonces::new();
    stored.insert(account(1), 100);
    cache.retain_from(&stored);
    assert!(cache.tracked_accounts().is_empty());
    assert_eq!(cache.get_tx(hash(1)), Some(tx(1, account(1), 3)));
    assert_eq!(cache.get_tx(hash(2)), Some(tx(2, account(1), 8)));
}

#[test]
fn retain_at_the_highest_nonce() {
    let mut cache = TxCache::new();
    cache.push(tx(1, account(1), u32::MAX - 1));
    cache.push(tx(2, account(1), u32::MAX));
    let mut stored = StoredNonces::new();
    stored.insert(account(1), u32::MAX);
    cache.retain_from(&stored);
    assert_eq!(cache.get_nonces_for_account(account(1)), nonces(&[u32::MAX]));
}

#[test]
fn retain_on_an_empty_cache() {
    let mut cache = TxCache::new();
    let mut stored = StoredNonces::new();
    stored.insert(account(1), 3);
    cache.retain_from(&stored);
    assert!(cache.tracked_accounts().is_empty());
}

#[test]
fn an_account_comes_back_after_it_was_dropped() {
    let mut cache = TxCache::new();
    cache.push(tx(1, account(1), 3));
    let mut stored = StoredNonces::new();
    stored.insert(account(1), 4);
    cache.retain_from(&stored);
    assert!(cache.tracked_accounts().is_empty());
    cache.push(tx(2, account(1), 4));
    assert_eq!(cache.get_nonces_for_account(account(1)), nonces(&[4]));
    assert_eq!(cache.tracked_accounts(), vec![account(1)]);
}

#[test]
fn stored_nonces_default_to_zero_and_keep_the_last_value() {
    let mut stored = StoredNonces::new();
    assert_eq!(stored.nonce_for(account(1)), 0);
    stored.insert(account(1), 5);
    stored.insert(account(2), 9);
    assert_eq!(stored.nonce_for(account(1)), 5);
    assert_eq!(stored.nonce_for(account(2)), 9);
    stored.insert(account(1), 6);
    assert_eq!(stored.nonce_for(account(1)), 6);
    assert_eq!(stored.nonce_for(account(3)), 0);
}

#[test]
fn clone_of_a_transaction_is_equal_and_independent() {
    let first = tx(1, account(1), 7);
    let mut copy = first.clone();
    assert_eq!(copy, first);
    copy.input = Some(vec![9, 9]);
    assert_eq!(first, tx(1, account(1), 7));

    let without_input =
        CachedTransaction { hash: hash(2), initiator_account: account(2), nonce: 0, input: None };
    assert_eq!(without_input.clone(), without_input);
}

#[test]
fn transaction_without_raw_form_is_cached_like_any_other() {
    let mut cache = TxCache::new();
    let t =
        CachedTransaction { hash: hash(2), initiator_account: account(2), nonce: 5, input: None };
    cache.push(t.clone());
    assert_eq!(cache.get_tx(hash(2)), Some(t));
    assert_eq!(cache.get_nonces_for_account(account(2)), nonces(&[5]));
}
