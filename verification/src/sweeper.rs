//! The background task that keeps the cache's nonces in step with the store,
//! as a state machine.
//!
//! The machine decides; its driver does what only a driver can do: wait for a
//! lock, ask the store, sleep. Each method takes what the driver has got, moves
//! the machine on and returns what the driver has to do next. A pass goes
//! `wake`, `snapshot`, `store_replied`, `trim`, `slept`, and the machine holds
//! the cache only inside `snapshot` and `trim`: no [`SweepAction`] borrows from
//! it, so a driver that locks the cache for these two calls alone never keeps
//! it locked while the store is asked.

use tokio::sync::watch::Receiver;
use vstd::prelude::*;
use crate::cache::TxCache;
use crate::stored::StoredNonces;
use crate::types::Address;

verus! {

/// How long the task rests between two passes, in milliseconds.
pub const UPDATE_INTERVAL_MS: u64 = 1000;

/// Where the task stands.
pub enum SweepState {
    /// At the top of the loop, about to look at the shutdown signal.
    Idle,
    /// Waiting for shared access to the cache.
    Snapshotting,
    /// Waiting for the store's answer.
    Querying,
    /// Holding the store's answer, waiting for exclusive access to the cache.
    Trimming(Map<Address, u32>),
    /// Resting until the next pass.
    Sleeping,
    /// Over, after a shutdown or a failure of the store.
    Finished,
}

/// What the driver has to do next.
#[derive(Debug, PartialEq, Eq)]
pub enum SweepAction {
    /// Get shared access to the cache and call `snapshot` with it.
    Snapshot,
    /// Release the cache, ask the store for the nonces of these accounts and
    /// call `store_replied` with the outcome.
    QueryStore(Vec<Address>),
    /// Get exclusive access to the cache and call `trim` with it.
    Trim,
    /// Release the cache, wait for this many milliseconds and call `slept`.
    Sleep(u64),
    /// Look at the shutdown signal and call `wake` with it.
    CheckStop,
    /// End the task in good order: a shutdown was requested.
    Stop,
    /// End the task with the error that the store returned.
    Fail,
}

#[derive(Debug)]
enum Phase {
    Idle,
    Snapshotting,
    Querying,
    Trimming(StoredNonces),
    Sleeping,
    Finished,
}

/// The task's state between two calls.
#[derive(Debug)]
pub struct NonceSweeper {
    phase: Phase,
}

impl View for NonceSweeper {
    type V = SweepState;

    closed spec fn view(&self) -> SweepState {
        match self.phase {
            Phase::Idle => SweepState::Idle,
            Phase::Snapshotting => SweepState::Snapshotting,
            Phase::Querying => SweepState::Querying,
            Phase::Trimming(stored) => SweepState::Trimming(stored@),
            Phase::Sleeping => SweepState::Sleeping,
            Phase::Finished => SweepState::Finished,
        }
    }
}

/// The receiving end of a `tokio` watch channel, carried through as it is.
#[verifier::external_type_specification]
#[verifier::external_body]
#[verifier::reject_recursive_types(T)]
pub struct ExReceiver<T>(tokio::sync::watch::Receiver<T>);

/// The value that the shutdown channel holds now, read through
/// `tokio::sync::watch::Receiver::borrow`. Nothing is claimed of it: it is
/// whatever the sending end has sent last, or the value that the channel was
/// made with.
#[verifier::external_body]
fn stop_requested(stop_receiver: &Receiver<bool>) -> (stop: bool) {
    *stop_receiver.borrow()
}

impl NonceSweeper {
    /// A task that has not started: it stands at the top of its loop.
    pub fn new() -> (sweeper: NonceSweeper)
        ensures
            sweeper@ == SweepState::Idle,
    {
        NonceSweeper { phase: Phase::Idle }
    }

    /// The top of the loop: the task ends if a shutdown was requested, and
    /// starts a pass if not. Elsewhere than at the top of the loop the call
    /// changes nothing and returns `None`.
    pub fn wake(&mut self, stop: bool) -> (action: Option<SweepAction>)
        ensures
            old(self)@ is Idle && stop ==> final(self)@ == SweepState::Finished && action == Some(
                SweepAction::Stop,
            ),
            old(self)@ is Idle && !stop ==> final(self)@ == SweepState::Snapshotting && action
                == Some(SweepAction::Snapshot),
            !(old(self)@ is Idle) ==> final(self)@ == old(self)@ && action is None,
    {
        match self.phase {
            Phase::Idle => {
                if stop {
                    self.phase = Phase::Finished;
                    Some(SweepAction::Stop)
                } else {
                    self.phase = Phase::Snapshotting;
                    Some(SweepAction::Snapshot)
                }
            },
            _ => None,
        }
    }

    /// The top of the loop, with the shutdown signal read from its channel:
    /// `wake` with the value that the channel holds now.
    pub fn wake_on(&mut self, stop_receiver: &Receiver<bool>) -> (action: Option<SweepAction>)
        ensures
            old(self)@ is Idle ==> (final(self)@ == SweepState::Finished && action == Some(
                SweepAction::Stop,
            )) || (final(self)@ == SweepState::Snapshotting && action == Some(
                SweepAction::Snapshot,
            )),
            !(old(self)@ is Idle) ==> final(self)@ == old(self)@ && action is None,
    {
        let stop = stop_requested(stop_receiver);
        self.wake(stop)
    }

    /// The first step of a pass: notes which accounts the cache tracks now, to
    /// ask the store about them. Out of turn the call changes nothing and
    /// returns `None`.
    pub fn snapshot(&mut self, cache: &TxCache) -> (action: Option<SweepAction>)
        ensures
            old(self)@ is Snapshotting ==> final(self)@ == SweepState::Querying && (
            action matches Some(SweepAction::QueryStore(accounts)) && accounts@.to_set()
                == cache@.tracked_accounts() && accounts@.no_duplicates()),
            !(old(self)@ is Snapshotting) ==> final(self)@ == old(self)@ && action is None,
    {
        match self.phase {
            Phase::Snapshotting => {
                self.phase = Phase::Querying;
                Some(SweepAction::QueryStore(cache.tracked_accounts()))
            },
            _ => None,
        }
    }

    /// The store has answered, with the nonces it holds or, as `None`, with an
    /// error. An error ends the task; an answer is kept for `trim`. Out of turn
    /// the call changes nothing and returns `None`.
    pub fn store_replied(&mut self, reply: Option<StoredNonces>) -> (action: Option<SweepAction>)
        ensures
            old(self)@ is Querying ==> match reply {
                Some(stored) => final(self)@ == SweepState::Trimming(stored@) && action == Some(
                    SweepAction::Trim,
                ),
                None => final(self)@ == SweepState::Finished && action == Some(SweepAction::Fail),
            },
            !(old(self)@ is Querying) ==> final(self)@ == old(self)@ && action is None,
    {
        match self.phase {
            Phase::Querying => {
                match reply {
                    Some(stored) => {
                        self.phase = Phase::Trimming(stored);
                        Some(SweepAction::Trim)
                    },
                    None => {
                        self.phase = Phase::Finished;
                        Some(SweepAction::Fail)
                    },
                }
            },
            _ => None,
        }
    }

    /// The last step of a pass: holds the cache's nonces against the store's
    /// answer, then asks for the rest between passes. Out of turn the call
    /// changes nothing, in the task or in the cache, and returns `None`.
    pub fn trim(&mut self, cache: &mut TxCache) -> (action: Option<SweepAction>)
        ensures
            old(self)@ matches SweepState::Trimming(stored) ==> final(self)@ == SweepState::Sleeping
                && final(cache)@ == old(cache)@.retain_from(stored) && action == Some(
                SweepAction::Sleep(UPDATE_INTERVAL_MS),
            ),
            !(old(self)@ is Trimming) ==> final(self)@ == old(self)@ && final(cache)@ == old(
                cache,
            )@ && action is None,
    {
        let mut phase = Phase::Sleeping;
        std::mem::swap(&mut phase, &mut self.phase);
        match phase {
            Phase::Trimming(stored) => {
                cache.retain_from(&stored);
                Some(SweepAction::Sleep(UPDATE_INTERVAL_MS))
            },
            other => {
                self.phase = other;
                None
            },
        }
    }

    /// The rest is over: the task is back at the top of its loop. Out of turn
    /// the call changes nothing and returns `None`.
    pub fn slept(&mut self) -> (action: Option<SweepAction>)
        ensures
            old(self)@ is Sleeping ==> final(self)@ == SweepState::Idle && action == Some(
                SweepAction::CheckStop,
            ),
            !(old(self)@ is Sleeping) ==> final(self)@ == old(self)@ && action is None,
    {
        match self.phase {
            Phase::Sleeping => {
                self.phase = Phase::Idle;
                Some(SweepAction::CheckStop)
            },
            _ => None,
        }
    }
}

} // verus!
