//! Plain-data types shared by the cache, the proxy and the request planner.
//!
//! Hashes and addresses are held as integer words rather than byte arrays, so
//! that they can key ordered maps whose ordering the verifier understands.

use vstd::prelude::*;

verus! {

/// A 256-bit hash naming a transaction or a block.
///
/// `hi` is the big-endian value of the first sixteen bytes, `lo` that of the
/// last sixteen.
#[derive(Clone, Copy, Debug, PartialEq, Eq, Hash, Structural)]
pub struct H256 {
    pub hi: u128,
    pub lo: u128,
}

/// A 160-bit account address.
///
/// `hi` is the big-endian value of the first four bytes, `lo` that of the
/// remaining sixteen.
#[derive(Clone, Copy, Debug, PartialEq, Eq, Hash, Structural)]
pub struct Address {
    pub hi: u32,
    pub lo: u128,
}

impl H256 {
    /// The pair of words under which this hash is filed in an ordered map.
    pub(crate) open spec fn key(self) -> (u128, u128) {
        (self.hi, self.lo)
    }

    pub(crate) fn to_key(&self) -> (k: (u128, u128))
        ensures
            k == self.key(),
    {
        (self.hi, self.lo)
    }
}

impl Address {
    /// The pair of words under which this address is filed in an ordered map.
    pub(crate) open spec fn key(self) -> (u32, u128) {
        (self.hi, self.lo)
    }

    pub(crate) fn to_key(&self) -> (k: (u32, u128))
        ensures
            k == self.key(),
    {
        (self.hi, self.lo)
    }

    /// The address that is filed under `k`.
    pub(crate) open spec fn of_key(k: (u32, u128)) -> Address {
        Address { hi: k.0, lo: k.1 }
    }

    pub(crate) fn from_key(k: (u32, u128)) -> (a: Address)
        ensures
            a == Address::of_key(k),
    {
        Address { hi: k.0, lo: k.1 }
    }
}

/// A submitted transaction that has not been finalized yet.
///
/// The cache reads three attributes of it: the hash that names it, the account
/// that initiated it and that account's nonce. `input` is the raw encoded form
/// in which the transaction is forwarded upstream; it is absent for a
/// transaction that was not received in encoded form.
#[derive(Debug, PartialEq, Eq)]
pub struct CachedTransaction {
    pub hash: H256,
    pub initiator_account: Address,
    pub nonce: u32,
    pub input: Option<Vec<u8>>,
}

/// What a [`CachedTransaction`] holds, as mathematical values.
pub struct TxRecord {
    pub hash: H256,
    pub initiator_account: Address,
    pub nonce: u32,
    pub input: Option<Seq<u8>>,
}

impl View for CachedTransaction {
    type V = TxRecord;

    open spec fn view(&self) -> TxRecord {
        TxRecord {
            hash: self.hash,
            initiator_account: self.initiator_account,
            nonce: self.nonce,
            input: match self.input {
                Some(bytes) => Some(bytes@),
                None => None,
            },
        }
    }
}

impl Clone for CachedTransaction {
    fn clone(&self) -> (copy: Self)
        ensures
            copy@ == self@,
    {
        let input = match &self.input {
            Some(bytes) => Some(bytes.clone()),
            None => None,
        };
        CachedTransaction {
            hash: self.hash,
            initiator_account: self.initiator_account,
            nonce: self.nonce,
            input,
        }
    }
}

} // verus!
