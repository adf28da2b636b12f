//! The errors that requests are answered with.
use crate::primitives::{BlockHeight, BlockReference, CryptoHash, RpcTransactionError};
use serde_json::Value;
use vstd::prelude::*;

verus! {

/// Why the parameters of a request could not be read.
#[derive(Debug, PartialEq, Eq)]
pub struct RpcParseError {
    pub message: String,
}

/// Why a value could not be serialised, as it is shown and in its debug notation.
#[derive(Debug, PartialEq, Eq)]
pub struct SerializeError {
    pub display: String,
    pub debug: String,
}

/// Why a message did not get its reply.
#[derive(Clone, Copy, Debug, PartialEq, Eq)]
pub enum MailboxError {
    Closed,
    Timeout,
}

/// Why a query failed.
#[derive(Debug, PartialEq, Eq)]
pub enum RpcQueryError {
    /// A contract was called, and its execution failed.
    ContractExecutionError {
        vm_error: String,
        block_height: BlockHeight,
        block_hash: CryptoHash,
    },
    /// The account has no such access key. The key is held by the text that it is shown as.
    UnknownAccessKey { public_key: String, block_height: BlockHeight, block_hash: CryptoHash },
    /// There is no such block.
    UnknownBlock { block_reference: BlockReference },
    /// Any other reason, in its serialised form.
    Other { info: Value },
}

/// Why a method failed.
#[derive(Debug, PartialEq, Eq)]
pub enum HandlerError {
    /// The node refused the message, or did not reply to it. The error is held in its
    /// serialised form.
    Node { info: Value },
    Transaction(RpcTransactionError),
    Query(RpcQueryError),
    /// There is no such receipt.
    UnknownReceipt { receipt_id: CryptoHash },
    /// A node that runs alone could not move its chain forward.
    SandboxFastForward { error_message: String },
}

/// The error that a request is answered with.
#[derive(Debug, PartialEq, Eq)]
pub enum RpcError {
    /// The message is not what was expected.
    ParseError { message: String },
    /// There is no such method.
    MethodNotFound { method: String },
    /// The parameters of the method could not be read.
    InvalidParams(RpcParseError),
    /// The result could not be serialised.
    SerializationError { message: String },
    /// The server failed.
    InternalError { error_data: Option<Value>, info: String },
    /// A failure of the server or of the method, told apart by its serialised form.
    InternalOrHandlerError { error_data: Option<Value>, error_struct: Value },
    /// The server failed, and nothing more is said.
    ServerError,
    /// The method failed.
    Handler(HandlerError),
}

/// The result of serialising a value, as the result of a request.
pub fn serialize_response(value: Result<Value, SerializeError>) -> (response: Result<
    Value,
    RpcError,
>)
    ensures
        match value {
            Ok(value) => response == Ok::<Value, RpcError>(value),
            Err(error) => response == Err::<Value, RpcError>(
                RpcError::SerializationError { message: error.display },
            ),
        },
{
    match value {
        Ok(value) => Ok(value),
        Err(error) => Err(RpcError::SerializationError { message: error.display }),
    }
}

/// A request succeeds with what its response was serialised to, and fails exactly where that
/// failed, with the reason as it is shown.
pub proof fn law_serialised_values_are_results(
    value: Result<Value, SerializeError>,
    response: Result<Value, RpcError>,
)
    requires
        call_ensures(serialize_response, (value,), response),
    ensures
        response is Ok <==> value is Ok,
        response matches Ok(given) ==> value == Ok::<Value, SerializeError>(given),
        response matches Err(error) ==> (error matches RpcError::SerializationError { message }
            && value matches Err(reason) && message == reason.display),
{
}

} // verus!
