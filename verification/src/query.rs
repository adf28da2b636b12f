//! Queries of the state of the chain.
use crate::errors::{HandlerError, RpcError, RpcQueryError, SerializeError};
use crate::json::{
    empty_object, integer_value, json, list_value, object_value, set_field, text_value, Json,
};
use crate::primitives::{BlockHeight, BlockId, BlockReference, CryptoHash};
use crate::text::{decimal, law_decimal_reads_back, number, write_decimal};
use serde_json::Value;
use vstd::prelude::*;

verus! {

/// What a query asks for. Whatever only the node reads of it is held in `params`.
#[derive(Debug, PartialEq, Eq)]
pub enum QueryRequest {
    ViewAccount { params: Value },
    ViewCode { params: Value },
    ViewState { include_proof: bool, params: Value },
    ViewAccessKey { params: Value },
    ViewAccessKeyList { params: Value },
    CallFunction { params: Value },
}

/// A query, and the block that it asks about.
#[derive(Debug, PartialEq, Eq)]
pub struct RpcQueryRequest {
    pub block_reference: BlockReference,
    pub request: QueryRequest,
}

/// The answer of the node to a query.
#[derive(Debug, PartialEq, Eq)]
pub struct RpcQueryResponse {
    pub response: Value,
}

impl QueryRequest {
    /// The name under which queries of this kind are counted.
    pub open spec fn spec_metrics_name(self) -> Seq<char> {
        match self {
            QueryRequest::ViewAccount { .. } => "query_view_account"@,
            QueryRequest::ViewCode { .. } => "query_view_code"@,
            QueryRequest::ViewState { include_proof: true, .. } => "query_view_state_with_proof"@,
            QueryRequest::ViewState { include_proof: false, .. } => "query_view_state"@,
            QueryRequest::ViewAccessKey { .. } => "query_view_access_key"@,
            QueryRequest::ViewAccessKeyList { .. } => "query_view_access_key_list"@,
            QueryRequest::CallFunction { .. } => "query_call_function"@,
        }
    }

    /// The name under which queries of this kind are counted.
    pub fn metrics_name(&self) -> (name: String)
        ensures
            name@ == self.spec_metrics_name(),
    {
        let name = match self {
            QueryRequest::ViewAccount { .. } => "query_view_account",
            QueryRequest::ViewCode { .. } => "query_view_code",
            QueryRequest::ViewState { include_proof, .. } => {
                if *include_proof {
                    "query_view_state_with_proof"
                } else {
                    "query_view_state"
                }
            },
            QueryRequest::ViewAccessKey { .. } => "query_view_access_key",
            QueryRequest::ViewAccessKeyList { .. } => "query_view_access_key_list",
            QueryRequest::CallFunction { .. } => "query_call_function",
        };
        name.to_owned()
    }
}

/// What the answer of the node to a query turns into.
#[derive(Debug, PartialEq, Eq)]
pub enum QueryOutcome {
    /// The response, which is serialised for the answer.
    Respond { response: RpcQueryResponse },
    /// The error, which is serialised for the answer, and what the answer says beside it.
    Explain { error: RpcQueryError, error_data: Value },
    /// The answer.
    Ready { result: Result<Value, RpcError> },
}

/// The document that a failed query is reported as where callers expect a result: the error
/// as a text, no logs, and the block that was asked.
pub open spec fn error_document(
    error: Seq<char>,
    block_height: BlockHeight,
    block_hash: CryptoHash,
) -> Json {
    Json::Object(
        map![
            "error"@ => Json::Text(error),
            "logs"@ => Json::List(Seq::empty()),
            "block_height"@ => Json::Integer(block_height as int),
            "block_hash"@ => Json::Text(block_hash.base58@),
        ],
    )
}

/// What is said of a block that is not there.
pub open spec fn block_not_found(block_id: BlockId) -> Seq<char> {
    match block_id {
        BlockId::Height(height) => "DB Not Found Error: BLOCK HEIGHT: "@ + decimal(height as nat)
            + " \n Cause: Unknown"@,
        BlockId::Hash(block_hash) => "DB Not Found Error: BLOCK HEADER: "@ + block_hash.base58@,
    }
}

fn error_value(error: String, block_height: BlockHeight, block_hash: CryptoHash) -> (value: Value)
    ensures
        json(value) == error_document(error@, block_height, block_hash),
{
    let no_logs: Vec<Value> = Vec::new();
    let mut object = empty_object();
    set_field(&mut object, "error".to_owned(), text_value(error));
    let logs = list_value(no_logs);
    assert(json(logs)->List_0 =~= Seq::<Json>::empty());
    set_field(&mut object, "logs".to_owned(), logs);
    set_field(&mut object, "block_height".to_owned(), integer_value(block_height));
    set_field(&mut object, "block_hash".to_owned(), text_value(block_hash.base58));
    object_value(object)
}

fn block_not_found_text(block_id: &BlockId) -> (text: String)
    ensures
        text@ == block_not_found(*block_id),
{
    match block_id {
        BlockId::Height(height) => {
            let digits = write_decimal(*height);
            "DB Not Found Error: BLOCK HEIGHT: ".to_owned().concat(digits.as_str()).concat(
                " \n Cause: Unknown",
            )
        },
        BlockId::Hash(block_hash) => {
            "DB Not Found Error: BLOCK HEADER: ".to_owned().concat(block_hash.base58.as_str())
        },
    }
}

/// Turns the answer of the node to a query into the answer to the request.
///
/// A failed contract and an unknown access key are not errors of the request: callers expect
/// a result that holds the error as a text. A block that is not there is an error with a text
/// beside it.
pub fn process_query_response(
    query_response: Result<RpcQueryResponse, RpcQueryError>,
) -> (outcome: QueryOutcome)
    ensures
        match query_response {
            Ok(response) => outcome == (QueryOutcome::Respond { response }),
            Err(
                RpcQueryError::ContractExecutionError { vm_error, block_height, block_hash },
            ) => outcome matches QueryOutcome::Ready { result: Ok(value) } && json(value)
                == error_document(vm_error@, block_height, block_hash),
            Err(
                RpcQueryError::UnknownAccessKey { public_key, block_height, block_hash },
            ) => outcome matches QueryOutcome::Ready { result: Ok(value) } && json(value)
                == error_document(
                "access key "@ + public_key@ + " does not exist while viewing"@,
                block_height,
                block_hash,
            ),
            Err(
                RpcQueryError::UnknownBlock { block_reference: BlockReference::BlockId(block_id) },
            ) => outcome matches QueryOutcome::Explain { error, error_data } && error == (
            RpcQueryError::UnknownBlock { block_reference: BlockReference::BlockId(block_id) })
                && json(error_data) == Json::Text(block_not_found(block_id)),
            Err(error) => outcome == (QueryOutcome::Ready {
                result: Err(RpcError::Handler(HandlerError::Query(error))),
            }),
        },
{
    match query_response {
        Ok(response) => QueryOutcome::Respond { response },
        Err(RpcQueryError::ContractExecutionError { vm_error, block_height, block_hash }) => {
            QueryOutcome::Ready { result: Ok(error_value(vm_error, block_height, block_hash)) }
        },
        Err(RpcQueryError::UnknownAccessKey { public_key, block_height, block_hash }) => {
            let text = "access key ".to_owned().concat(public_key.as_str()).concat(
                " does not exist while viewing",
            );
            QueryOutcome::Ready { result: Ok(error_value(text, block_height, block_hash)) }
        },
        Err(
            RpcQueryError::UnknownBlock { block_reference: BlockReference::BlockId(block_id) },
        ) => {
            let error_data = text_value(block_not_found_text(&block_id));
            QueryOutcome::Explain {
                error: RpcQueryError::UnknownBlock {
                    block_reference: BlockReference::BlockId(block_id),
                },
                error_data,
            }
        },
        Err(error) => QueryOutcome::Ready {
            result: Err(RpcError::Handler(HandlerError::Query(error))),
        },
    }
}

/// The answer to a query about a block that is not there, once its error was serialised or
/// failed to be.
pub fn explain_query_error(
    error_data: Value,
    error_struct: Result<Value, SerializeError>,
) -> (answer: RpcError)
    ensures
        match error_struct {
            Ok(error_struct) => answer == (RpcError::InternalOrHandlerError {
                error_data: Some(error_data),
                error_struct,
            }),
            Err(failure) => answer matches RpcError::InternalError { error_data: None, info }
                && info@ == "Failed to serialize RpcQueryError: "@ + failure.debug@,
        },
{
    match error_struct {
        Ok(error_struct) => RpcError::InternalOrHandlerError {
            error_data: Some(error_data),
            error_struct,
        },
        Err(failure) => RpcError::InternalError {
            error_data: None,
            info: "Failed to serialize RpcQueryError: ".to_owned().concat(failure.debug.as_str()),
        },
    }
}

/// What is said of a block that is not there names the block: by its height, in digits that read
/// back as the height, or by its hash.
pub proof fn law_missing_blocks_are_named(block_id: BlockId)
    ensures
        match block_id {
            BlockId::Height(height) => exists|digits: Seq<char>|
                block_not_found(block_id) == "DB Not Found Error: BLOCK HEIGHT: "@ + digits
                    + " \n Cause: Unknown"@ && #[trigger] number(digits) == height,
            BlockId::Hash(hash) => block_not_found(block_id)
                == "DB Not Found Error: BLOCK HEADER: "@ + hash.base58@,
        },
{
    if let BlockId::Height(height) = block_id {
        law_decimal_reads_back(height as nat);
        let digits = decimal(height as nat);
        assert(number(digits) == height);
    }
}

/// The name that a query is counted under tells its kind, and whether a proof was asked for with
/// the state.
pub proof fn law_metrics_name_tells_the_kind(one: QueryRequest, other: QueryRequest)
    requires
        one.spec_metrics_name() == other.spec_metrics_name(),
    ensures
        one is ViewAccount <==> other is ViewAccount,
        one is ViewCode <==> other is ViewCode,
        one is ViewState <==> other is ViewState,
        one is ViewState ==> one->include_proof == other->include_proof,
        one is ViewAccessKey <==> other is ViewAccessKey,
        one is ViewAccessKeyList <==> other is ViewAccessKeyList,
        one is CallFunction <==> other is CallFunction,
{
    reveal_strlit("query_view_account");
    reveal_strlit("query_view_code");
    reveal_strlit("query_view_state_with_proof");
    reveal_strlit("query_view_state");
    reveal_strlit("query_view_access_key");
    reveal_strlit("query_view_access_key_list");
    reveal_strlit("query_call_function");
    assert("query_view_account"@.len() == 18);
    assert("query_view_code"@.len() == 15);
    assert("query_view_state_with_proof"@.len() == 27);
    assert("query_view_state"@.len() == 16);
    assert("query_view_access_key"@.len() == 21);
    assert("query_view_access_key_list"@.len() == 26);
    assert("query_call_function"@.len() == 19);
}

/// Queries of one kind are counted under one name, whatever they ask about.
pub proof fn law_metrics_name_is_of_the_kind(one: QueryRequest, other: QueryRequest)
    requires
        one is ViewAccount <==> other is ViewAccount,
        one is ViewCode <==> other is ViewCode,
        one is ViewState <==> other is ViewState,
        one is ViewState ==> one->include_proof == other->include_proof,
        one is ViewAccessKey <==> other is ViewAccessKey,
        one is ViewAccessKeyList <==> other is ViewAccessKeyList,
    ensures
        one.spec_metrics_name() == other.spec_metrics_name(),
{
}

} // verus!
