use tx_proxy::rpc::{
    ArgValue, BlockId, BlockNumber, EnrichedClientError, RpcArg, RpcRequest, TransactionId,
};
use tx_proxy::types::H256;

const HASH: H256 = H256 { hi: 7, lo: 9 };

fn every_request() -> Vec<RpcRequest> {
    vec![
        RpcRequest::SendRawTransaction { raw_tx: vec![1, 2, 3], tx_hash: HASH },
        RpcRequest::GetTransactionByBlockHashAndIndex { block_hash: HASH, index: 4 },
        RpcRequest::GetTransactionByBlockNumberAndIndex {
            block_number: BlockNumber::Finalized,
            index: 5,
        },
        RpcRequest::GetTransactionByHash { hash: HASH },
        RpcRequest::GetTransactionDetails { hash: HASH },
    ]
}

#[test]
fn method_names() {
    let names: Vec<&str> = every_request().iter().map(|r| r.method_name()).collect();
    assert_eq!(
        names,
        vec![
            "send_raw_transaction",
            "get_transaction_by_block_hash_and_index",
            "get_transaction_by_block_number_and_index",
            "get_transaction_by_hash",
            "get_transaction_details",
        ]
    );
}

#[test]
fn context_of_send_raw_transaction() {
    let request = RpcRequest::SendRawTransaction { raw_tx: vec![1, 2, 3], tx_hash: HASH };
    assert_eq!(request.context(), vec![RpcArg { name: "tx_hash", value: ArgValue::Hash(HASH) }]);
}

#[test]
fn context_of_get_by_block_hash_and_index() {
    let request = RpcRequest::GetTransactionByBlockHashAndIndex { block_hash: HASH, index: 4 };
    assert_eq!(
        request.context(),
        vec![
            RpcArg { name: "block", value: ArgValue::Hash(HASH) },
            RpcArg { name: "index", value: ArgValue::Index(4) },
        ]
    );
}

#[test]
fn context_of_get_by_block_number_and_index() {
    let request = RpcRequest::GetTransactionByBlockNumberAndIndex {
        block_number: BlockNumber::Number(12),
        index: 4,
    };
    assert_eq!(
        request.context(),
        vec![
            RpcArg { name: "block", value: ArgValue::Block(BlockNumber::Number(12)) },
            RpcArg { name: "index", value: ArgValue::Index(4) },
        ]
    );
}

#[test]
fn context_of_get_by_hash_and_of_details() {
    let by_hash = RpcRequest::GetTransactionByHash { hash: HASH };
    let details = RpcRequest::GetTransactionDetails { hash: HASH };
    let expected = vec![RpcArg { name: "hash", value: ArgValue::Hash(HASH) }];
    assert_eq!(by_hash.context(), expected);
    assert_eq!(details.context(), expected);
}

#[test]
fn for_transaction_picks_the_method_by_the_kind_of_id() {
    assert_eq!(
        RpcRequest::for_transaction(TransactionId::Hash(HASH)),
        RpcRequest::GetTransactionByHash { hash: HASH }
    );
    assert_eq!(
        RpcRequest::for_transaction(TransactionId::Block(BlockId::Hash(HASH), 1)),
        RpcRequest::GetTransactionByBlockHashAndIndex { block_hash: HASH, index: 1 }
    );
    for block_number in [
        BlockNumber::Committed,
        BlockNumber::Finalized,
        BlockNumber::Latest,
        BlockNumber::Earliest,
        BlockNumber::Pending,
        BlockNumber::Number(0),
    ] {
        assert_eq!(
            RpcRequest::for_transaction(TransactionId::Block(BlockId::Number(block_number), 1)),
            RpcRequest::GetTransactionByBlockNumberAndIndex { block_number, index: 1 }
        );
    }
}

#[test]
fn complete_hands_an_answer_on() {
    let request = RpcRequest::GetTransactionByHash { hash: HASH };
    let answer: Result<Option<u32>, EnrichedClientError<String>> = request.complete(Ok(Some(5)));
    assert_eq!(answer.unwrap(), Some(5));
}

#[test]
fn complete_hands_not_found_on_as_an_answer() {
    let request = RpcRequest::GetTransactionDetails { hash: HASH };
    let answer: Result<Option<u32>, EnrichedClientError<String>> = request.complete(Ok(None));
    assert_eq!(answer.unwrap(), None);
}

#[test]
fn complete_labels_a_failure() {
    let request = RpcRequest::GetTransactionByBlockHashAndIndex { block_hash: HASH, index: 4 };
    let outcome: Result<Option<u32>, String> = Err(String::from("connection refused"));
    let error = request.complete(outcome).unwrap_err();
    assert_eq!(error.inner_error, "connection refused");
    assert_eq!(error.method, "get_transaction_by_block_hash_and_index");
    assert_eq!(
        error.args,
        vec![
            RpcArg { name: "block", value: ArgValue::Hash(HASH) },
            RpcArg { name: "index", value: ArgValue::Index(4) },
        ]
    );
}

#[test]
fn complete_labels_a_failed_submission_with_the_hash_only() {
    let request = RpcRequest::SendRawTransaction { raw_tx: vec![1, 2, 3], tx_hash: HASH };
    let outcome: Result<H256, u16> = Err(503);
    let error = request.complete(outcome).unwrap_err();
    assert_eq!(error.inner_error, 503);
    assert_eq!(error.method, "send_raw_transaction");
    assert_eq!(error.args, vec![RpcArg { name: "tx_hash", value: ArgValue::Hash(HASH) }]);
}

#[test]
fn complete_hands_the_submitted_hash_on() {
    let request = RpcRequest::SendRawTransaction { raw_tx: vec![1, 2, 3], tx_hash: HASH };
    let outcome: Result<H256, u16> = Ok(HASH);
    assert_eq!(request.complete(outcome).unwrap(), HASH);
}

#[test]
fn clone_of_a_request_is_equal() {
    for request in every_request() {
        assert_eq!(request.clone(), request);
    }
}
