//! The requests that the proxy sends upstream, and what it makes of the
//! outcome.
//!
//! Nothing here touches the network. A request is a value that says which
//! method to call with which arguments; whoever holds the client sends it and
//! hands the outcome to [`RpcRequest::complete`], which leaves an answer as it
//! is and labels a failure with the method and the arguments it was made with.

use vstd::prelude::*;
use crate::types::H256;

verus! {

/// A block named by its height or by a tag.
#[derive(Clone, Copy, Debug, PartialEq, Eq, Structural)]
pub enum BlockNumber {
    Committed,
    Finalized,
    Latest,
    Earliest,
    Pending,
    Number(u64),
}

/// A block named by its hash or by its number.
#[derive(Clone, Copy, Debug, PartialEq, Eq, Structural)]
pub enum BlockId {
    Hash(H256),
    Number(BlockNumber),
}

/// A transaction named by its hash, or by a block and its position in it.
#[derive(Clone, Copy, Debug, PartialEq, Eq, Structural)]
pub enum TransactionId {
    Block(BlockId, u64),
    Hash(H256),
}

/// A value that a request was made with.
#[derive(Clone, Copy, Debug, PartialEq, Eq, Structural)]
pub enum ArgValue {
    Hash(H256),
    Block(BlockNumber),
    Index(u64),
}

/// An argument of a request, under the name it is reported by.
#[derive(Clone, Copy, Debug, PartialEq, Eq)]
pub struct RpcArg {
    pub name: &'static str,
    pub value: ArgValue,
}

/// An [`RpcArg`] as mathematical values.
pub struct RpcArgView {
    pub name: Seq<char>,
    pub value: ArgValue,
}

impl View for RpcArg {
    type V = RpcArgView;

    open spec fn view(&self) -> RpcArgView {
        RpcArgView { name: self.name@, value: self.value }
    }
}

/// A call to make on the upstream node.
#[derive(Debug, PartialEq, Eq)]
pub enum RpcRequest {
    /// Hand in a transaction in its encoded form. `tx_hash` is not sent: it
    /// names the transaction where the call is reported.
    SendRawTransaction { raw_tx: Vec<u8>, tx_hash: H256 },
    GetTransactionByBlockHashAndIndex { block_hash: H256, index: u64 },
    GetTransactionByBlockNumberAndIndex { block_number: BlockNumber, index: u64 },
    GetTransactionByHash { hash: H256 },
    GetTransactionDetails { hash: H256 },
}

/// An [`RpcRequest`] as mathematical values.
pub enum RequestView {
    SendRawTransaction { raw_tx: Seq<u8>, tx_hash: H256 },
    GetTransactionByBlockHashAndIndex { block_hash: H256, index: u64 },
    GetTransactionByBlockNumberAndIndex { block_number: BlockNumber, index: u64 },
    GetTransactionByHash { hash: H256 },
    GetTransactionDetails { hash: H256 },
}

impl View for RpcRequest {
    type V = RequestView;

    open spec fn view(&self) -> RequestView {
        match *self {
            RpcRequest::SendRawTransaction { raw_tx, tx_hash } => RequestView::SendRawTransaction {
                raw_tx: raw_tx@,
                tx_hash,
            },
            RpcRequest::GetTransactionByBlockHashAndIndex { block_hash, index } => {
                RequestView::GetTransactionByBlockHashAndIndex { block_hash, index }
            },
            RpcRequest::GetTransactionByBlockNumberAndIndex { block_number, index } => {
                RequestView::GetTransactionByBlockNumberAndIndex { block_number, index }
            },
            RpcRequest::GetTransactionByHash { hash } => RequestView::GetTransactionByHash { hash },
            RpcRequest::GetTransactionDetails { hash } => RequestView::GetTransactionDetails {
                hash,
            },
        }
    }
}

impl Clone for RpcRequest {
    fn clone(&self) -> (copy: Self)
        ensures
            copy@ == self@,
    {
        match self {
            RpcRequest::SendRawTransaction { raw_tx, tx_hash } => RpcRequest::SendRawTransaction {
                raw_tx: raw_tx.clone(),
                tx_hash: *tx_hash,
            },
            RpcRequest::GetTransactionByBlockHashAndIndex { block_hash, index } => {
                RpcRequest::GetTransactionByBlockHashAndIndex {
                    block_hash: *block_hash,
                    index: *index,
                }
            },
            RpcRequest::GetTransactionByBlockNumberAndIndex { block_number, index } => {
                RpcRequest::GetTransactionByBlockNumberAndIndex {
                    block_number: *block_number,
                    index: *index,
                }
            },
            RpcRequest::GetTransactionByHash { hash } => RpcRequest::GetTransactionByHash {
                hash: *hash,
            },
            RpcRequest::GetTransactionDetails { hash } => RpcRequest::GetTransactionDetails {
                hash: *hash,
            },
        }
    }
}

impl RequestView {
    /// The name of the method that the request calls.
    pub open spec fn method_name(self) -> Seq<char> {
        match self {
            RequestView::SendRawTransaction { .. } => "send_raw_transaction"@,
            RequestView::GetTransactionByBlockHashAndIndex { .. } => {
                "get_transaction_by_block_hash_and_index"@
            },
            RequestView::GetTransactionByBlockNumberAndIndex { .. } => {
                "get_transaction_by_block_number_and_index"@
            },
            RequestView::GetTransactionByHash { .. } => "get_transaction_by_hash"@,
            RequestView::GetTransactionDetails { .. } => "get_transaction_details"@,
        }
    }

    /// The arguments by which a failure of the request is reported, in order.
    pub open spec fn context(self) -> Seq<RpcArgView> {
        match self {
            RequestView::SendRawTransaction { tx_hash, .. } => seq![
                RpcArgView { name: "tx_hash"@, value: ArgValue::Hash(tx_hash) },
            ],
            RequestView::GetTransactionByBlockHashAndIndex { block_hash, index } => seq![
                RpcArgView { name: "block"@, value: ArgValue::Hash(block_hash) },
                RpcArgView { name: "index"@, value: ArgValue::Index(index) },
            ],
            RequestView::GetTransactionByBlockNumberAndIndex { block_number, index } => seq![
                RpcArgView { name: "block"@, value: ArgValue::Block(block_number) },
                RpcArgView { name: "index"@, value: ArgValue::Index(index) },
            ],
            RequestView::GetTransactionByHash { hash } => seq![
                RpcArgView { name: "hash"@, value: ArgValue::Hash(hash) },
            ],
            RequestView::GetTransactionDetails { hash } => seq![
                RpcArgView { name: "hash"@, value: ArgValue::Hash(hash) },
            ],
        }
    }

    /// The request that fetches the transaction named by `id`.
    pub open spec fn for_transaction(id: TransactionId) -> RequestView {
        match id {
            TransactionId::Block(BlockId::Hash(block_hash), index) => {
                RequestView::GetTransactionByBlockHashAndIndex { block_hash, index }
            },
            TransactionId::Block(BlockId::Number(block_number), index) => {
                RequestView::GetTransactionByBlockNumberAndIndex { block_number, index }
            },
            TransactionId::Hash(hash) => RequestView::GetTransactionByHash { hash },
        }
    }
}

/// A failure of a request, with the method and the arguments it was made with.
#[derive(Debug)]
pub struct EnrichedClientError<E> {
    /// What the client reported.
    pub inner_error: E,
    pub method: &'static str,
    pub args: Vec<RpcArg>,
}

/// The views of `args`, in order.
pub open spec fn arg_views(args: Seq<RpcArg>) -> Seq<RpcArgView> {
    args.map_values(|arg: RpcArg| arg@)
}

impl RpcRequest {
    /// The request that fetches the transaction named by `id`.
    pub fn for_transaction(id: TransactionId) -> (request: RpcRequest)
        ensures
            request@ == RequestView::for_transaction(id),
    {
        match id {
            TransactionId::Block(BlockId::Hash(block_hash), index) => {
                RpcRequest::GetTransactionByBlockHashAndIndex { block_hash, index }
            },
            TransactionId::Block(BlockId::Number(block_number), index) => {
                RpcRequest::GetTransactionByBlockNumberAndIndex { block_number, index }
            },
            TransactionId::Hash(hash) => RpcRequest::GetTransactionByHash { hash },
        }
    }

    /// The name of the method that the request calls.
    pub fn method_name(&self) -> (name: &'static str)
        ensures
            name@ == self@.method_name(),
    {
        match self {
            RpcRequest::SendRawTransaction { .. } => "send_raw_transaction",
            RpcRequest::GetTransactionByBlockHashAndIndex { .. } => {
                "get_transaction_by_block_hash_and_index"
            },
            RpcRequest::GetTransactionByBlockNumberAndIndex { .. } => {
                "get_transaction_by_block_number_and_index"
            },
            RpcRequest::GetTransactionByHash { .. } => "get_transaction_by_hash",
            RpcRequest::GetTransactionDetails { .. } => "get_transaction_details",
        }
    }

    /// The arguments by which a failure of the request is reported, in order.
    pub fn context(&self) -> (args: Vec<RpcArg>)
        ensures
            arg_views(args@) == self@.context(),
    {
        let mut args: Vec<RpcArg> = Vec::new();
        match self {
            RpcRequest::SendRawTransaction { tx_hash, .. } => {
                args.push(RpcArg { name: "tx_hash", value: ArgValue::Hash(*tx_hash) });
            },
            RpcRequest::GetTransactionByBlockHashAndIndex { block_hash, index } => {
                args.push(RpcArg { name: "block", value: ArgValue::Hash(*block_hash) });
                args.push(RpcArg { name: "index", value: ArgValue::Index(*index) });
            },
            RpcRequest::GetTransactionByBlockNumberAndIndex { block_number, index } => {
                args.push(RpcArg { name: "block", value: ArgValue::Block(*block_number) });
                args.push(RpcArg { name: "index", value: ArgValue::Index(*index) });
            },
            RpcRequest::GetTransactionByHash { hash } => {
                args.push(RpcArg { name: "hash", value: ArgValue::Hash(*hash) });
            },
            RpcRequest::GetTransactionDetails { hash } => {
                args.push(RpcArg { name: "hash", value: ArgValue::Hash(*hash) });
            },
        }
        assert(arg_views(args@) =~= self@.context());
        args
    }

    /// What the proxy returns for `outcome`, the outcome of this request: an
    /// answer as it came, "not found" among them, and a failure with the
    /// request's method and arguments added to it.
    pub fn complete<T, E>(&self, outcome: Result<T, E>) -> (result: Result<
        T,
        EnrichedClientError<E>,
    >)
        ensures
            match outcome {
                Ok(answer) => result == Ok::<T, EnrichedClientError<E>>(answer),
                Err(inner_error) => result matches Err(error) && error.inner_error == inner_error
                    && error.method@ == self@.method_name() && arg_views(error.args@)
                    == self@.context(),
            },
    {
        match outcome {
            Ok(answer) => Ok(answer),
            Err(inner_error) => Err(
                EnrichedClientError {
                    inner_error,
                    method: self.method_name(),
                    args: self.context(),
                },
            ),
        }
    }
}

} // verus!
