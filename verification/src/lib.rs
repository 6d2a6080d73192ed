//! A cache of the transactions that a node has forwarded to the main node and
//! does not see in its own store yet, with the proxy that request handlers use
//! and the task that trims the cache as the store catches up.
//!
//! The library decides and computes; it neither locks, nor waits, nor talks to
//! a network or a store. A caller that shares a [`proxy::TxProxy`] puts it
//! behind a lock of its own, sends the requests that [`rpc`] plans, and drives
//! the [`sweeper`].
//!
//! - [`types`]: hashes, addresses and the cached transaction.
//! - [`model`]: the cache as two mathematical maps, and the operations on them.
//! - [`cache`]: the cache itself.
//! - [`nonces`]: one account's pending nonces.
//! - [`stored`]: the store's answer to the sweeper's question.
//! - [`sweeper`]: the task that holds the cache against the store.
//! - [`rpc`]: the requests to the main node and the handling of their outcome.
//! - [`proxy`]: the facade over all of these.
//! - [`laws`]: what holds of the operations taken together.

pub mod cache;
pub mod laws;
pub mod model;
pub mod nonces;
pub mod proxy;
pub mod rpc;
pub mod stored;
pub mod sweeper;
pub mod types;
