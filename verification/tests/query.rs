use serde_json::Value;
use unc_jsonrpc::errors::{HandlerError, RpcError, RpcQueryError, SerializeError};
use unc_jsonrpc::primitives::{BlockId, BlockReference, CryptoHash};
use unc_jsonrpc::query::{
    explain_query_error, process_query_response, QueryOutcome, QueryRequest, RpcQueryResponse,
};

fn parsed(text: &str) -> Value {
    serde_json::from_str(text).unwrap()
}

fn hash(text: &str) -> CryptoHash {
    CryptoHash { base58: text.to_string() }
}

#[test]
fn queries_are_counted_by_kind() {
    let params = Value::Null;
    let names = [
        (QueryRequest::ViewAccount { params: params.clone() }, "query_view_account"),
        (QueryRequest::ViewCode { params: params.clone() }, "query_view_code"),
        (
            QueryRequest::ViewState { include_proof: true, params: params.clone() },
            "query_view_state_with_proof",
        ),
        (
            QueryRequest::ViewState { include_proof: false, params: params.clone() },
            "query_view_state",
        ),
        (QueryRequest::ViewAccessKey { params: params.clone() }, "query_view_access_key"),
        (QueryRequest::ViewAccessKeyList { params: params.clone() }, "query_view_access_key_list"),
        (QueryRequest::CallFunction { params }, "query_call_function"),
    ];
    for (request, name) in names {
        assert_eq!(request.metrics_name(), name);
    }
}

#[test]
fn success_is_serialised() {
    let response = RpcQueryResponse { response: Value::from("state") };
    assert_eq!(
        process_query_response(Ok(response)),
        QueryOutcome::Respond { response: RpcQueryResponse { response: Value::from("state") } }
    );
}

#[test]
fn failed_contract_is_a_result() {
    let outcome = process_query_response(Err(RpcQueryError::ContractExecutionError {
        vm_error: "out of \"gas\"".to_string(),
        block_height: 18_446_744_073_709_551_615,
        block_hash: hash("9FMNAtGzdHMz"),
    }));
    assert_eq!(
        outcome,
        QueryOutcome::Ready {
            result: Ok(parsed(
                "{\"error\":\"out of \\\"gas\\\"\",\"logs\":[],\
                 \"block_height\":18446744073709551615,\"block_hash\":\"9FMNAtGzdHMz\"}"
            ))
        }
    );
}

#[test]
fn unknown_access_key_is_a_result() {
    let outcome = process_query_response(Err(RpcQueryError::UnknownAccessKey {
        public_key: "ed25519:abc".to_string(),
        block_height: 17,
        block_hash: hash("9FMNAtGzdHMz"),
    }));
    assert_eq!(
        outcome,
        QueryOutcome::Ready {
            result: Ok(parsed(
                "{\"error\":\"access key ed25519:abc does not exist while viewing\",\
                 \"logs\":[],\"block_height\":17,\"block_hash\":\"9FMNAtGzdHMz\"}"
            ))
        }
    );
}

#[test]
fn unknown_height_is_explained() {
    let outcome = process_query_response(Err(RpcQueryError::UnknownBlock {
        block_reference: BlockReference::BlockId(BlockId::Height(1203)),
    }));
    assert_eq!(
        outcome,
        QueryOutcome::Explain {
            error: RpcQueryError::UnknownBlock {
                block_reference: BlockReference::BlockId(BlockId::Height(1203)),
            },
            error_data: Value::from("DB Not Found Error: BLOCK HEIGHT: 1203 \n Cause: Unknown"),
        }
    );
}

#[test]
fn unknown_hash_is_explained() {
    let outcome = process_query_response(Err(RpcQueryError::UnknownBlock {
        block_reference: BlockReference::BlockId(BlockId::Hash(hash("9FMNAtGzdHMz"))),
    }));
    match outcome {
        QueryOutcome::Explain { error_data, .. } => {
            assert_eq!(error_data, Value::from("DB Not Found Error: BLOCK HEADER: 9FMNAtGzdHMz"));
        }
        _ => panic!("the error is explained"),
    }
}

#[test]
fn other_reference_is_an_error() {
    let outcome = process_query_response(Err(RpcQueryError::UnknownBlock {
        block_reference: BlockReference::Other(Value::from("final")),
    }));
    assert_eq!(
        outcome,
        QueryOutcome::Ready {
            result: Err(RpcError::Handler(HandlerError::Query(RpcQueryError::UnknownBlock {
                block_reference: BlockReference::Other(Value::from("final")),
            })))
        }
    );
}

#[test]
fn other_error_is_an_error() {
    let outcome =
        process_query_response(Err(RpcQueryError::Other { info: Value::from("no account") }));
    assert_eq!(
        outcome,
        QueryOutcome::Ready {
            result: Err(RpcError::Handler(HandlerError::Query(RpcQueryError::Other {
                info: Value::from("no account"),
            })))
        }
    );
}

#[test]
fn explanation_holds_both() {
    assert_eq!(
        explain_query_error(Value::from("text"), Ok(Value::from("error"))),
        RpcError::InternalOrHandlerError {
            error_data: Some(Value::from("text")),
            error_struct: Value::from("error"),
        }
    );
}

#[test]
fn explanation_that_fails() {
    let failure = SerializeError {
        display: "key must be a string".to_string(),
        debug: "Error(\"key must be a string\")".to_string(),
    };
    assert_eq!(
        explain_query_error(Value::from("text"), Err(failure)),
        RpcError::InternalError {
            error_data: None,
            info: "Failed to serialize RpcQueryError: Error(\"key must be a string\")".to_string(),
        }
    );
}
