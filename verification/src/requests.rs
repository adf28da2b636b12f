//! The handling of a request, from its method to its answer.
//!
//! A [`RpcStep`] says what to do next for a request: read its parameters, send a message to
//! the node, serialise a response. What the step waits for is one of the states of this
//! module, which turns what came back into the next step, until the request is answered.
use crate::config::{nanoseconds, RpcPollingConfig};
use crate::errors::{
    serialize_response, HandlerError, MailboxError, RpcError, RpcParseError, RpcQueryError,
    SerializeError,
};
use crate::json::{json, text_value, Json};
use crate::methods::{AdversarialMethod, BasicMethod, Method};
use crate::node::{
    ClientMessage, NetworkAdversarialMessage, SandboxMessage, SandboxResponse, ViewClientMessage,
};
use crate::primitives::{
    AccountId, BlockHeight, BlockReference, CryptoHash, RpcTransactionError, TxExecutionStatus,
};
use crate::query::{
    block_not_found, error_document, explain_query_error, process_query_response, QueryOutcome,
    RpcQueryRequest, RpcQueryResponse,
};
use crate::transactions::{
    begin_send, wait_for_status, ProcessTxRequest, RpcSendTransactionRequest,
    RpcTransactionResponse, RpcTransactionStatusRequest, TxStep,
};
use serde_json::Value;
use std::ops::Range;
use std::time::Duration;
use vstd::prelude::*;

verus! {

/// The parameters of a request, as the method reads them. What only the node reads is held in
/// its serialised form.
#[derive(Debug, PartialEq, Eq)]
pub enum Params {
    /// The method takes none.
    Empty,
    Block { block_reference: BlockReference },
    Chunk { chunk_reference: Value },
    GasPrice { block_id: Value },
    LightClientProof { id: Value, light_client_head: CryptoHash },
    NextLightClientBlock { last_block_hash: CryptoHash },
    SendTransaction(RpcSendTransactionRequest),
    TransactionStatus(RpcTransactionStatusRequest),
    Validators { epoch_reference: Value },
    Changes { block_reference: BlockReference, state_changes_request: Value },
    ChangesInBlock { block_reference: BlockReference },
    ProtocolConfig { block_reference: BlockReference },
    Receipt { receipt_id: CryptoHash },
    ValidatorsOrdered { block_id: Value },
    MaintenanceWindows { account_id: AccountId },
    SandboxPatchState { records: Value },
    SandboxFastForward { delta_height: BlockHeight },
    Provider { epoch_id: Value, block_height: BlockHeight },
    Query(RpcQueryRequest),
    AdvProduceBlocks { num_blocks: u64, only_valid: bool },
    AdvSwitchToHeight { height: BlockHeight },
}

/// Which response a reply of the node is made into.
#[derive(Debug, PartialEq, Eq)]
pub enum Answer {
    Block,
    Chunk,
    GasPrice,
    Health,
    NextLightClientBlock,
    NetworkInfo,
    Status,
    Validators,
    ValidatorsOrdered,
    ClientConfig,
    ProtocolConfig,
    SplitStorageInfo,
    Provider,
    /// The changes of a block, of the kind that was asked for.
    Changes { block_hash: CryptoHash },
    /// What changed in a block.
    ChangesInBlock { block_hash: CryptoHash },
}

/// A response, before it is serialised.
#[derive(Debug, PartialEq, Eq)]
pub enum RpcResponse {
    /// A reply of the node.
    Reply { answer: Answer, value: Value },
    /// The hash of a transaction that was sent, as a text.
    TransactionHash { hash: String },
    Transaction(RpcTransactionResponse),
    LightClientProof {
        outcome_proof: Value,
        outcome_root_proof: Value,
        block_header_lite: Value,
        block_proof: Value,
    },
    /// The genesis configuration of the node.
    GenesisConfig,
    Receipt { receipt_view: Value },
    MaintenanceWindows { windows: Vec<(BlockHeight, BlockHeight)> },
    SandboxPatchState,
    SandboxFastForward,
    Query(RpcQueryResponse),
    /// What the node has in store.
    Stored { value: Value },
}

/// What the node replies on the outcome of an execution.
#[derive(Debug, PartialEq, Eq)]
pub struct ExecutionOutcome {
    /// The block that the outcome is proved to be in.
    pub block_hash: CryptoHash,
    pub outcome_proof: Value,
    pub outcome_root_proof: Value,
}

/// What the node replies on the place of a block below a head.
#[derive(Debug, PartialEq, Eq)]
pub struct BlockProof {
    pub block_header_lite: Value,
    pub proof: Value,
}

/// Waiting for the parameters to be read.
#[derive(Debug, PartialEq, Eq)]
pub struct AwaitParams {
    pub method: Method,
    pub metrics_name: String,
}

/// Waiting for the end of a conversation about a transaction.
#[derive(Debug, PartialEq, Eq)]
pub struct AwaitTransaction {
    pub metrics_name: String,
}

/// Waiting until a transaction is handed over.
#[derive(Debug, PartialEq, Eq)]
pub struct AwaitTold {
    pub metrics_name: String,
    pub hash: CryptoHash,
}

/// Waiting for a reply that is made into a response as it is.
#[derive(Debug, PartialEq, Eq)]
pub struct AwaitReply {
    pub metrics_name: String,
    pub answer: Answer,
}

/// Waiting for the block whose changes are asked for: those of a kind, or which there are.
#[derive(Debug, PartialEq, Eq)]
pub struct AwaitBlock {
    pub metrics_name: String,
    pub state_changes_request: Option<Value>,
}

/// Waiting for a receipt.
#[derive(Debug, PartialEq, Eq)]
pub struct AwaitReceipt {
    pub metrics_name: String,
    pub receipt_id: CryptoHash,
}

/// Waiting for the outcome of an execution.
#[derive(Debug, PartialEq, Eq)]
pub struct AwaitOutcome {
    pub metrics_name: String,
    pub light_client_head: CryptoHash,
}

/// Waiting for the place of a block below the head of a light client.
#[derive(Debug, PartialEq, Eq)]
pub struct AwaitBlockProof {
    pub metrics_name: String,
    pub outcome_proof: Value,
    pub outcome_root_proof: Value,
}

/// Waiting for the maintenance windows.
#[derive(Debug, PartialEq, Eq)]
pub struct AwaitWindows {
    pub metrics_name: String,
}

/// Waiting for the answer to a query.
#[derive(Debug, PartialEq, Eq)]
pub struct AwaitQuery {
    pub metrics_name: String,
}

/// Waiting for the error of a query to be serialised.
#[derive(Debug, PartialEq, Eq)]
pub struct AwaitExplanation {
    pub metrics_name: String,
    pub error_data: Value,
}

/// Waiting until a message is on its way, whatever becomes of it.
#[derive(Debug, PartialEq, Eq)]
pub struct AwaitSpread {
    pub metrics_name: String,
}

/// Waiting for what the node has in store.
#[derive(Debug, PartialEq, Eq)]
pub struct AwaitStore {
    pub metrics_name: String,
}

/// What a node that runs alone is doing to its chain.
#[derive(Clone, Copy, Debug, PartialEq, Eq)]
pub enum SandboxTask {
    PatchState,
    FastForward,
}

/// Waiting until a node that runs alone has begun its task.
#[derive(Debug, PartialEq, Eq)]
pub struct AwaitSandbox {
    pub metrics_name: String,
    pub polling_config: RpcPollingConfig,
    pub task: SandboxTask,
}

/// Waiting until a node that runs alone has done its task.
#[derive(Debug, PartialEq, Eq)]
pub struct SandboxPoll {
    pub metrics_name: String,
    pub polling_config: RpcPollingConfig,
    pub task: SandboxTask,
}

/// Waiting for the response to be serialised.
#[derive(Debug, PartialEq, Eq)]
pub struct AwaitSerialized {
    pub metrics_name: String,
}

/// What the handling of a request does next.
#[derive(Debug, PartialEq, Eq)]
#[allow(inconsistent_fields)]
pub enum RpcStep {
    /// Read the parameters as the method wants them.
    Parse { params: Value, wait: AwaitParams },
    /// Have the conversation about a transaction, from this step on to its end.
    Transaction { step: TxStep, wait: AwaitTransaction },
    /// Hand the message to the client and do not wait for a reply.
    Tell { message: ProcessTxRequest, wait: AwaitTold },
    /// Send the message to the client.
    AskClient { message: ClientMessage, wait: AwaitReply },
    /// Send the message to the view client.
    AskViewClient { message: ViewClientMessage, wait: AwaitReply },
    /// Ask the view client for a block.
    AskBlock { message: ViewClientMessage, wait: AwaitBlock },
    /// Ask the view client for a receipt.
    AskReceipt { message: ViewClientMessage, wait: AwaitReceipt },
    /// Ask the view client for the outcome of an execution.
    AskOutcome { message: ViewClientMessage, wait: AwaitOutcome },
    /// Ask the view client for the place of a block.
    AskBlockProof { message: ViewClientMessage, wait: AwaitBlockProof },
    /// Ask the view client for the maintenance windows.
    AskWindows { message: ViewClientMessage, wait: AwaitWindows },
    /// Put a query to the view client.
    AskQuery { message: ViewClientMessage, wait: AwaitQuery },
    /// Serialise the error of a query.
    Explain { error: RpcQueryError, wait: AwaitExplanation },
    /// Send the message to the client, and to the view client if so told, and do not wait for
    /// a reply.
    Spread {
        message: NetworkAdversarialMessage,
        to_view_client: bool,
        wait: AwaitSpread,
    },
    /// Ask the client for what the node has in store.
    AskStore { message: ClientMessage, wait: AwaitStore },
    /// Send the client a task of a node that runs alone.
    AskSandbox { message: ClientMessage, wait: AwaitSandbox },
    /// Ask the client whether the task is done. If `time_limit` is given, the time limit on
    /// the task begins.
    PollSandbox { message: ClientMessage, time_limit: Option<Duration>, wait: SandboxPoll },
    /// Sleep before asking again whether the task is done.
    SleepSandbox { interval: Duration, wait: SandboxPoll },
    /// Serialise the response.
    Serialize { response: RpcResponse, wait: AwaitSerialized },
    /// The request is answered. It is counted under the name.
    Done { metrics_name: String, response: Result<Value, RpcError> },
}

/// Whether the method reads its parameters into a value of this shape.
pub open spec fn suits(method: Method, params: Params) -> bool {
    match method {
        Method::Query => params is Query,
        Method::Adversarial(method) => match method {
            AdversarialMethod::ProduceBlocks => params is AdvProduceBlocks,
            AdversarialMethod::SwitchToHeight => params is AdvSwitchToHeight,
            _ => false,
        },
        Method::Basic(method) => match method {
            BasicMethod::Block => params is Block,
            BasicMethod::BroadcastTxAsync => params is SendTransaction,
            BasicMethod::BroadcastTxCommit => params is SendTransaction,
            BasicMethod::Chunk => params is Chunk,
            BasicMethod::GasPrice => params is GasPrice,
            BasicMethod::LightClientProof => params is LightClientProof,
            BasicMethod::NextLightClientBlock => params is NextLightClientBlock,
            BasicMethod::SendTx => params is SendTransaction,
            BasicMethod::Tx => params is TransactionStatus,
            BasicMethod::Validators => params is Validators,
            BasicMethod::ExperimentalChanges => params is Changes,
            BasicMethod::ExperimentalChangesInBlock => params is ChangesInBlock,
            BasicMethod::ExperimentalLightClientProof => params is LightClientProof,
            BasicMethod::ExperimentalProtocolConfig => params is ProtocolConfig,
            BasicMethod::ExperimentalReceipt => params is Receipt,
            BasicMethod::ExperimentalTxStatus => params is TransactionStatus,
            BasicMethod::ExperimentalValidatorsOrdered => params is ValidatorsOrdered,
            BasicMethod::ExperimentalMaintenanceWindows => params is MaintenanceWindows,
            BasicMethod::SandboxPatchState => params is SandboxPatchState,
            BasicMethod::SandboxFastForward => params is SandboxFastForward,
            BasicMethod::Provider => params is Provider,
            BasicMethod::Health => params is Empty,
            BasicMethod::NetworkInfo => params is Empty,
            BasicMethod::Status => params is Empty,
            BasicMethod::ClientConfig => params is Empty,
            BasicMethod::ExperimentalGenesisConfig => params is Empty,
            BasicMethod::ExperimentalSplitStorageInfo => params is Empty,
        },
    }
}

/// The request fails.
pub open spec fn fail(metrics_name: String, error: HandlerError) -> RpcStep {
    RpcStep::Done { metrics_name, response: Err(RpcError::Handler(error)) }
}

/// The response is serialised.
pub open spec fn respond(metrics_name: String, response: RpcResponse) -> RpcStep {
    RpcStep::Serialize { response, wait: AwaitSerialized { metrics_name } }
}

/// The client is asked, and its reply is made into the response.
pub open spec fn ask_client(
    metrics_name: String,
    message: ClientMessage,
    answer: Answer,
) -> RpcStep {
    RpcStep::AskClient { message, wait: AwaitReply { metrics_name, answer } }
}

/// The view client is asked, and its reply is made into the response.
pub open spec fn ask_view_client(
    metrics_name: String,
    message: ViewClientMessage,
    answer: Answer,
) -> RpcStep {
    RpcStep::AskViewClient { message, wait: AwaitReply { metrics_name, answer } }
}

/// A conversation about a transaction is had.
pub open spec fn converse(metrics_name: String, step: TxStep) -> RpcStep {
    RpcStep::Transaction { step, wait: AwaitTransaction { metrics_name } }
}

/// The first thing that a method does, once its parameters are read.
pub open spec fn method_begins(
    polling_config: RpcPollingConfig,
    method: BasicMethod,
    params: Params,
    metrics_name: String,
) -> RpcStep {
    match (method, params) {
        (BasicMethod::Block, Params::Block { block_reference }) => ask_view_client(
            metrics_name,
            ViewClientMessage::GetBlock { block_reference },
            Answer::Block,
        ),
        (BasicMethod::BroadcastTxAsync, Params::SendTransaction(request)) => RpcStep::Tell {
            message: ProcessTxRequest {
                transaction: request.signed_transaction,
                is_forwarded: false,
                check_only: false,
            },
            wait: AwaitTold { metrics_name, hash: request.signed_transaction.hash },
        },
        (BasicMethod::BroadcastTxCommit, Params::SendTransaction(request)) => converse(
            metrics_name,
            begin_send(
                polling_config,
                RpcSendTransactionRequest { wait_until: TxExecutionStatus::Final, ..request },
            ),
        ),
        (BasicMethod::Chunk, Params::Chunk { chunk_reference }) => ask_view_client(
            metrics_name,
            ViewClientMessage::GetChunk { chunk_reference },
            Answer::Chunk,
        ),
        (BasicMethod::GasPrice, Params::GasPrice { block_id }) => ask_view_client(
            metrics_name,
            ViewClientMessage::GetGasPrice { block_id },
            Answer::GasPrice,
        ),
        (BasicMethod::Health, _) => ask_client(
            metrics_name,
            ClientMessage::Status { is_health_check: true, detailed: false },
            Answer::Health,
        ),
        (
            BasicMethod::LightClientProof,
            Params::LightClientProof { id, light_client_head },
        ) => RpcStep::AskOutcome {
            message: ViewClientMessage::GetExecutionOutcome { id },
            wait: AwaitOutcome { metrics_name, light_client_head },
        },
        (
            BasicMethod::ExperimentalLightClientProof,
            Params::LightClientProof { id, light_client_head },
        ) => RpcStep::AskOutcome {
            message: ViewClientMessage::GetExecutionOutcome { id },
            wait: AwaitOutcome { metrics_name, light_client_head },
        },
        (
            BasicMethod::NextLightClientBlock,
            Params::NextLightClientBlock { last_block_hash },
        ) => ask_view_client(
            metrics_name,
            ViewClientMessage::GetNextLightClientBlock { last_block_hash },
            Answer::NextLightClientBlock,
        ),
        (BasicMethod::NetworkInfo, _) => ask_client(
            metrics_name,
            ClientMessage::GetNetworkInfo,
            Answer::NetworkInfo,
        ),
        (BasicMethod::SendTx, Params::SendTransaction(request)) => converse(
            metrics_name,
            begin_send(polling_config, request),
        ),
        (BasicMethod::Status, _) => ask_client(
            metrics_name,
            ClientMessage::Status { is_health_check: false, detailed: false },
            Answer::Status,
        ),
        (BasicMethod::Tx, Params::TransactionStatus(request)) => converse(
            metrics_name,
            wait_for_status(polling_config, request.transaction_info, request.wait_until, false),
        ),
        (BasicMethod::ExperimentalTxStatus, Params::TransactionStatus(request)) => converse(
            metrics_name,
            wait_for_status(polling_config, request.transaction_info, request.wait_until, true),
        ),
        (BasicMethod::Validators, Params::Validators { epoch_reference }) => ask_view_client(
            metrics_name,
            ViewClientMessage::GetValidatorInfo { epoch_reference },
            Answer::Validators,
        ),
        (BasicMethod::ClientConfig, _) => ask_client(
            metrics_name,
            ClientMessage::GetClientConfig,
            Answer::ClientConfig,
        ),
        (
            BasicMethod::ExperimentalChanges,
            Params::Changes { block_reference, state_changes_request },
        ) => RpcStep::AskBlock {
            message: ViewClientMessage::GetBlock { block_reference },
            wait: AwaitBlock {
                metrics_name,
                state_changes_request: Some(state_changes_request),
            },
        },
        (
            BasicMethod::ExperimentalChangesInBlock,
            Params::ChangesInBlock { block_reference },
        ) => RpcStep::AskBlock {
            message: ViewClientMessage::GetBlock { block_reference },
            wait: AwaitBlock { metrics_name, state_changes_request: None },
        },
        (BasicMethod::ExperimentalGenesisConfig, _) => respond(
            metrics_name,
            RpcResponse::GenesisConfig,
        ),
        (
            BasicMethod::ExperimentalProtocolConfig,
            Params::ProtocolConfig { block_reference },
        ) => ask_view_client(
            metrics_name,
            ViewClientMessage::GetProtocolConfig { block_reference },
            Answer::ProtocolConfig,
        ),
        (BasicMethod::ExperimentalReceipt, Params::Receipt { receipt_id }) => RpcStep::AskReceipt {
            message: ViewClientMessage::GetReceipt { receipt_id },
            wait: AwaitReceipt { metrics_name, receipt_id },
        },
        (
            BasicMethod::ExperimentalValidatorsOrdered,
            Params::ValidatorsOrdered { block_id },
        ) => ask_view_client(
            metrics_name,
            ViewClientMessage::GetValidatorOrdered { block_id },
            Answer::ValidatorsOrdered,
        ),
        (
            BasicMethod::ExperimentalMaintenanceWindows,
            Params::MaintenanceWindows { account_id },
        ) => RpcStep::AskWindows {
            message: ViewClientMessage::GetMaintenanceWindows { account_id },
            wait: AwaitWindows { metrics_name },
        },
        (BasicMethod::ExperimentalSplitStorageInfo, _) => ask_view_client(
            metrics_name,
            ViewClientMessage::GetSplitStorageInfo,
            Answer::SplitStorageInfo,
        ),
        (
            BasicMethod::SandboxPatchState,
            Params::SandboxPatchState { records },
        ) => RpcStep::AskSandbox {
            message: ClientMessage::Sandbox(SandboxMessage::PatchState { records }),
            wait: AwaitSandbox { metrics_name, polling_config, task: SandboxTask::PatchState },
        },
        (
            BasicMethod::SandboxFastForward,
            Params::SandboxFastForward { delta_height },
        ) => RpcStep::AskSandbox {
            message: ClientMessage::Sandbox(SandboxMessage::FastForward { delta_height }),
            wait: AwaitSandbox { metrics_name, polling_config, task: SandboxTask::FastForward },
        },
        (BasicMethod::Provider, Params::Provider { epoch_id, block_height }) => ask_view_client(
            metrics_name,
            ViewClientMessage::GetProvider { epoch_id, block_height },
            Answer::Provider,
        ),
        _ => arbitrary(),
    }
}

/// Whether `step` is what follows once the parameters are read, or could not be.
pub open spec fn after_params(
    polling_config: RpcPollingConfig,
    wait: AwaitParams,
    params: Result<Params, RpcParseError>,
    step: RpcStep,
) -> bool {
    match (wait.method, params) {
        (_, Err(error)) => step == (RpcStep::Done {
            metrics_name: wait.metrics_name,
            response: Err(RpcError::InvalidParams(error)),
        }),
        (Method::Query, Ok(Params::Query(request))) => {
            &&& step matches RpcStep::AskQuery { message, wait: later }
            &&& message == (ViewClientMessage::Query {
                block_reference: request.block_reference,
                request: request.request,
            })
            &&& later.metrics_name@ == request.request.spec_metrics_name()
        },
        (
            Method::Adversarial(AdversarialMethod::ProduceBlocks),
            Ok(Params::AdvProduceBlocks { num_blocks, only_valid }),
        ) => step == (RpcStep::Spread {
            message: NetworkAdversarialMessage::AdvProduceBlocks { num_blocks, only_valid },
            to_view_client: false,
            wait: AwaitSpread { metrics_name: wait.metrics_name },
        }),
        (
            Method::Adversarial(AdversarialMethod::SwitchToHeight),
            Ok(Params::AdvSwitchToHeight { height }),
        ) => step == (RpcStep::Spread {
            message: NetworkAdversarialMessage::AdvSwitchToHeight { height },
            to_view_client: true,
            wait: AwaitSpread { metrics_name: wait.metrics_name },
        }),
        (Method::Basic(method), Ok(params)) => step == method_begins(
            polling_config,
            method,
            params,
            wait.metrics_name,
        ),
        _ => false,
    }
}

/// What follows on a reply that is made into a response as it is.
pub open spec fn after_reply(wait: AwaitReply, reply: Result<Value, Value>) -> RpcStep {
    match reply {
        Ok(value) => respond(
            wait.metrics_name,
            RpcResponse::Reply { answer: wait.answer, value },
        ),
        Err(info) => fail(wait.metrics_name, HandlerError::Node { info }),
    }
}

/// What follows on the hash of the block whose changes are asked for.
pub open spec fn after_block(wait: AwaitBlock, reply: Result<CryptoHash, Value>) -> RpcStep {
    match reply {
        Ok(block_hash) => match wait.state_changes_request {
            Some(state_changes_request) => ask_view_client(
                wait.metrics_name,
                ViewClientMessage::GetStateChanges { block_hash, state_changes_request },
                Answer::Changes { block_hash },
            ),
            None => ask_view_client(
                wait.metrics_name,
                ViewClientMessage::GetStateChangesInBlock { block_hash },
                Answer::ChangesInBlock { block_hash },
            ),
        },
        Err(info) => fail(wait.metrics_name, HandlerError::Node { info }),
    }
}

/// What follows on a receipt, or on the word that there is none.
pub open spec fn after_receipt(wait: AwaitReceipt, reply: Result<Option<Value>, Value>) -> RpcStep {
    match reply {
        Ok(Some(receipt_view)) => respond(
            wait.metrics_name,
            RpcResponse::Receipt { receipt_view },
        ),
        Ok(None) => fail(
            wait.metrics_name,
            HandlerError::UnknownReceipt { receipt_id: wait.receipt_id },
        ),
        Err(info) => fail(wait.metrics_name, HandlerError::Node { info }),
    }
}

/// What follows on the outcome of an execution: the block that it is in is asked for.
pub open spec fn after_outcome(
    wait: AwaitOutcome,
    reply: Result<ExecutionOutcome, Value>,
) -> RpcStep {
    match reply {
        Ok(outcome) => RpcStep::AskBlockProof {
            message: ViewClientMessage::GetBlockProof {
                block_hash: outcome.block_hash,
                head_block_hash: wait.light_client_head,
            },
            wait: AwaitBlockProof {
                metrics_name: wait.metrics_name,
                outcome_proof: outcome.outcome_proof,
                outcome_root_proof: outcome.outcome_root_proof,
            },
        },
        Err(info) => fail(wait.metrics_name, HandlerError::Node { info }),
    }
}

/// What follows on the place of the block: the proof is put together.
pub open spec fn after_block_proof(
    wait: AwaitBlockProof,
    reply: Result<BlockProof, Value>,
) -> RpcStep {
    match reply {
        Ok(block_proof) => respond(
            wait.metrics_name,
            RpcResponse::LightClientProof {
                outcome_proof: wait.outcome_proof,
                outcome_root_proof: wait.outcome_root_proof,
                block_header_lite: block_proof.block_header_lite,
                block_proof: block_proof.proof,
            },
        ),
        Err(info) => fail(wait.metrics_name, HandlerError::Node { info }),
    }
}

/// Whether the pairs are the bounds of the ranges, in the same order.
pub open spec fn are_bounds(
    windows: Seq<(BlockHeight, BlockHeight)>,
    ranges: Seq<Range<BlockHeight>>,
) -> bool {
    windows =~= Seq::new(ranges.len(), |i: int| (ranges[i].start, ranges[i].end))
}

/// Whether `step` is what follows on the maintenance windows.
pub open spec fn after_windows(
    wait: AwaitWindows,
    reply: Result<Vec<Range<BlockHeight>>, Value>,
    step: RpcStep,
) -> bool {
    match reply {
        Ok(ranges) => {
            &&& step matches RpcStep::Serialize {
                response: RpcResponse::MaintenanceWindows { windows },
                wait: later,
            }
            &&& are_bounds(windows@, ranges@)
            &&& later.metrics_name == wait.metrics_name
        },
        Err(info) => step == fail(wait.metrics_name, HandlerError::Node { info }),
    }
}

/// Whether `step` is what follows on the answer to a query.
pub open spec fn after_query(
    wait: AwaitQuery,
    reply: Result<RpcQueryResponse, RpcQueryError>,
    step: RpcStep,
) -> bool {
    match reply {
        Ok(response) => step == respond(wait.metrics_name, RpcResponse::Query(response)),
        Err(RpcQueryError::ContractExecutionError { vm_error, block_height, block_hash }) => {
            &&& step matches RpcStep::Done { metrics_name, response: Ok(value) }
            &&& metrics_name == wait.metrics_name
            &&& json(value) == error_document(vm_error@, block_height, block_hash)
        },
        Err(RpcQueryError::UnknownAccessKey { public_key, block_height, block_hash }) => {
            &&& step matches RpcStep::Done { metrics_name, response: Ok(value) }
            &&& metrics_name == wait.metrics_name
            &&& json(value) == error_document(
                "access key "@ + public_key@ + " does not exist while viewing"@,
                block_height,
                block_hash,
            )
        },
        Err(
            RpcQueryError::UnknownBlock { block_reference: BlockReference::BlockId(block_id) },
        ) => {
            &&& step matches RpcStep::Explain { error, wait: later }
            &&& error == (RpcQueryError::UnknownBlock {
                block_reference: BlockReference::BlockId(block_id),
            })
            &&& later.metrics_name == wait.metrics_name
            &&& json(later.error_data) == Json::Text(block_not_found(block_id))
        },
        Err(error) => step == fail(wait.metrics_name, HandlerError::Query(error)),
    }
}

/// Whether `step` is what follows once the error of a query was serialised, or failed to be.
pub open spec fn after_explanation(
    wait: AwaitExplanation,
    error_struct: Result<Value, SerializeError>,
    step: RpcStep,
) -> bool {
    match error_struct {
        Ok(error_struct) => step == (RpcStep::Done {
            metrics_name: wait.metrics_name,
            response: Err(
                RpcError::InternalOrHandlerError {
                    error_data: Some(wait.error_data),
                    error_struct,
                },
            ),
        }),
        Err(failure) => {
            &&& step matches RpcStep::Done {
                metrics_name,
                response: Err(RpcError::InternalError { error_data: None, info }),
            }
            &&& metrics_name == wait.metrics_name
            &&& info@ == "Failed to serialize RpcQueryError: "@ + failure.debug@
        },
    }
}

/// Whether `step` is what follows once a message is on its way: the answer is the empty text.
pub open spec fn after_spread(wait: AwaitSpread, step: RpcStep) -> bool {
    &&& step matches RpcStep::Done { metrics_name, response: Ok(value) }
    &&& metrics_name == wait.metrics_name
    &&& json(value) == Json::Text(Seq::empty())
}

/// What follows on what the node has in store.
pub open spec fn after_store(
    wait: AwaitStore,
    reply: Result<Option<Value>, MailboxError>,
) -> RpcStep {
    match reply {
        Ok(Some(value)) => respond(wait.metrics_name, RpcResponse::Stored { value }),
        _ => RpcStep::Done { metrics_name: wait.metrics_name, response: Err(RpcError::ServerError) },
    }
}

/// The message that asks whether a task is done.
pub open spec fn status_of(task: SandboxTask) -> ClientMessage {
    match task {
        SandboxTask::PatchState => ClientMessage::Sandbox(SandboxMessage::PatchStateStatus),
        SandboxTask::FastForward => ClientMessage::Sandbox(SandboxMessage::FastForwardStatus),
    }
}

/// How long a task of a node that runs alone may take: an hour for moving its chain forward,
/// since that can take a while, and the polling timeout otherwise.
pub open spec fn is_limit_of(
    task: SandboxTask,
    polling_config: RpcPollingConfig,
    limit: Duration,
) -> bool {
    match task {
        SandboxTask::PatchState => limit == polling_config.polling_timeout,
        SandboxTask::FastForward => nanoseconds(limit) == 3_600_000_000_000,
    }
}

/// Whether `step` is what follows once a node that runs alone has begun its task.
pub open spec fn after_sandbox(wait: AwaitSandbox, reply: Result<(), Value>, step: RpcStep) -> bool {
    match reply {
        Ok(_) => {
            &&& step matches RpcStep::PollSandbox { message, time_limit: Some(limit), wait: later }
            &&& message == status_of(wait.task)
            &&& is_limit_of(wait.task, wait.polling_config, limit)
            &&& later == (SandboxPoll {
                metrics_name: wait.metrics_name,
                polling_config: wait.polling_config,
                task: wait.task,
            })
        },
        Err(info) => step == fail(wait.metrics_name, HandlerError::Node { info }),
    }
}

/// Whether the reply says that the task is done.
pub open spec fn is_finished(
    task: SandboxTask,
    reply: Result<SandboxResponse, MailboxError>,
) -> bool {
    match task {
        SandboxTask::PatchState => reply == Ok::<SandboxResponse, MailboxError>(
            SandboxResponse::PatchStateFinished(true),
        ),
        SandboxTask::FastForward => reply == Ok::<SandboxResponse, MailboxError>(
            SandboxResponse::FastForwardFinished(true),
        ),
    }
}

/// Whether `step` is what follows on the word on a task.
pub open spec fn after_sandbox_poll(
    wait: SandboxPoll,
    reply: Result<SandboxResponse, MailboxError>,
    step: RpcStep,
) -> bool {
    if is_finished(wait.task, reply) {
        step == respond(
            wait.metrics_name,
            match wait.task {
                SandboxTask::PatchState => RpcResponse::SandboxPatchState,
                SandboxTask::FastForward => RpcResponse::SandboxFastForward,
            },
        )
    } else {
        match (wait.task, reply) {
            (SandboxTask::FastForward, Ok(SandboxResponse::FastForwardFailed { error })) => {
                &&& step matches RpcStep::Done {
                    metrics_name,
                    response: Err(
                        RpcError::Handler(HandlerError::SandboxFastForward { error_message }),
                    ),
                }
                &&& metrics_name == wait.metrics_name
                &&& error_message@ == "sandbox failed to fast forward due to: "@ + error@
            },
            _ => step == (RpcStep::SleepSandbox {
                interval: wait.polling_config.polling_interval,
                wait,
            }),
        }
    }
}

/// What follows once a response was serialised, or failed to be.
pub open spec fn after_serialized(
    wait: AwaitSerialized,
    value: Result<Value, SerializeError>,
) -> RpcStep {
    RpcStep::Done {
        metrics_name: wait.metrics_name,
        response: match value {
            Ok(value) => Ok(value),
            Err(failure) => Err(RpcError::SerializationError { message: failure.display }),
        },
    }
}

/// What follows on the end of a conversation about a transaction.
pub open spec fn after_transaction(
    wait: AwaitTransaction,
    result: Result<RpcTransactionResponse, RpcTransactionError>,
) -> RpcStep {
    match result {
        Ok(response) => respond(wait.metrics_name, RpcResponse::Transaction(response)),
        Err(error) => fail(wait.metrics_name, HandlerError::Transaction(error)),
    }
}

// The handling, carried out.

/// Whether the method reads its parameters into a value of this shape.
pub fn params_suit(method: Method, params: &Params) -> (suit: bool)
    ensures
        suit == suits(method, *params),
{
    match method {
        Method::Query => matches!(params, Params::Query(_)),
        Method::Adversarial(method) => match method {
            AdversarialMethod::ProduceBlocks => matches!(params, Params::AdvProduceBlocks { .. }),
            AdversarialMethod::SwitchToHeight => matches!(params, Params::AdvSwitchToHeight { .. }),
            _ => false,
        },
        Method::Basic(method) => match method {
            BasicMethod::Block => matches!(params, Params::Block { .. }),
            BasicMethod::BroadcastTxAsync => matches!(params, Params::SendTransaction(_)),
            BasicMethod::BroadcastTxCommit => matches!(params, Params::SendTransaction(_)),
            BasicMethod::Chunk => matches!(params, Params::Chunk { .. }),
            BasicMethod::GasPrice => matches!(params, Params::GasPrice { .. }),
            BasicMethod::LightClientProof => matches!(params, Params::LightClientProof { .. }),
            BasicMethod::NextLightClientBlock => {
                matches!(params, Params::NextLightClientBlock { .. })
            },
            BasicMethod::SendTx => matches!(params, Params::SendTransaction(_)),
            BasicMethod::Tx => matches!(params, Params::TransactionStatus(_)),
            BasicMethod::Validators => matches!(params, Params::Validators { .. }),
            BasicMethod::ExperimentalChanges => matches!(params, Params::Changes { .. }),
            BasicMethod::ExperimentalChangesInBlock => {
                matches!(params, Params::ChangesInBlock { .. })
            },
            BasicMethod::ExperimentalLightClientProof => {
                matches!(params, Params::LightClientProof { .. })
            },
            BasicMethod::ExperimentalProtocolConfig => {
                matches!(params, Params::ProtocolConfig { .. })
            },
            BasicMethod::ExperimentalReceipt => matches!(params, Params::Receipt { .. }),
            BasicMethod::ExperimentalTxStatus => matches!(params, Params::TransactionStatus(_)),
            BasicMethod::ExperimentalValidatorsOrdered => {
                matches!(params, Params::ValidatorsOrdered { .. })
            },
            BasicMethod::ExperimentalMaintenanceWindows => {
                matches!(params, Params::MaintenanceWindows { .. })
            },
            BasicMethod::SandboxPatchState => matches!(params, Params::SandboxPatchState { .. }),
            BasicMethod::SandboxFastForward => matches!(params, Params::SandboxFastForward { .. }),
            BasicMethod::Provider => matches!(params, Params::Provider { .. }),
            BasicMethod::Health => matches!(params, Params::Empty),
            BasicMethod::NetworkInfo => matches!(params, Params::Empty),
            BasicMethod::Status => matches!(params, Params::Empty),
            BasicMethod::ClientConfig => matches!(params, Params::Empty),
            BasicMethod::ExperimentalGenesisConfig => matches!(params, Params::Empty),
            BasicMethod::ExperimentalSplitStorageInfo => matches!(params, Params::Empty),
        },
    }
}

impl AwaitReply {
    /// The node has replied.
    pub fn replied(self, reply: Result<Value, Value>) -> (step: RpcStep)
        ensures
            step == after_reply(self, reply),
    {
        match reply {
            Ok(value) => RpcStep::Serialize {
                response: RpcResponse::Reply { answer: self.answer, value },
                wait: AwaitSerialized { metrics_name: self.metrics_name },
            },
            Err(info) => failed(self.metrics_name, HandlerError::Node { info }),
        }
    }
}

fn failed(metrics_name: String, error: HandlerError) -> (step: RpcStep)
    ensures
        step == fail(metrics_name, error),
{
    RpcStep::Done { metrics_name, response: Err(RpcError::Handler(error)) }
}

impl AwaitTransaction {
    /// The conversation has come to its end.
    pub fn finished(self, result: Result<RpcTransactionResponse, RpcTransactionError>) -> (step:
        RpcStep)
        ensures
            step == after_transaction(self, result),
    {
        match result {
            Ok(response) => RpcStep::Serialize {
                response: RpcResponse::Transaction(response),
                wait: AwaitSerialized { metrics_name: self.metrics_name },
            },
            Err(error) => failed(self.metrics_name, HandlerError::Transaction(error)),
        }
    }
}

impl AwaitTold {
    /// The transaction is handed over.
    pub fn told(self) -> (step: RpcStep)
        ensures
            step == respond(
                self.metrics_name,
                RpcResponse::TransactionHash { hash: self.hash.base58 },
            ),
    {
        RpcStep::Serialize {
            response: RpcResponse::TransactionHash { hash: self.hash.base58 },
            wait: AwaitSerialized { metrics_name: self.metrics_name },
        }
    }
}

impl AwaitBlock {
    /// The view client has replied with the hash in the header of the block.
    pub fn replied(self, reply: Result<CryptoHash, Value>) -> (step: RpcStep)
        ensures
            step == after_block(self, reply),
    {
        match reply {
            Ok(block_hash) => {
                let hash = block_hash.clone();
                match self.state_changes_request {
                    Some(state_changes_request) => RpcStep::AskViewClient {
                        message: ViewClientMessage::GetStateChanges {
                            block_hash,
                            state_changes_request,
                        },
                        wait: AwaitReply {
                            metrics_name: self.metrics_name,
                            answer: Answer::Changes { block_hash: hash },
                        },
                    },
                    None => RpcStep::AskViewClient {
                        message: ViewClientMessage::GetStateChangesInBlock { block_hash },
                        wait: AwaitReply {
                            metrics_name: self.metrics_name,
                            answer: Answer::ChangesInBlock { block_hash: hash },
                        },
                    },
                }
            },
            Err(info) => failed(self.metrics_name, HandlerError::Node { info }),
        }
    }
}

impl AwaitReceipt {
    /// The view client has replied with the receipt, if there is one.
    pub fn replied(self, reply: Result<Option<Value>, Value>) -> (step: RpcStep)
        ensures
            step == after_receipt(self, reply),
    {
        match reply {
            Ok(Some(receipt_view)) => RpcStep::Serialize {
                response: RpcResponse::Receipt { receipt_view },
                wait: AwaitSerialized { metrics_name: self.metrics_name },
            },
            Ok(None) => failed(
                self.metrics_name,
                HandlerError::UnknownReceipt { receipt_id: self.receipt_id },
            ),
            Err(info) => failed(self.metrics_name, HandlerError::Node { info }),
        }
    }
}

impl AwaitOutcome {
    /// The view client has replied with the outcome.
    pub fn replied(self, reply: Result<ExecutionOutcome, Value>) -> (step: RpcStep)
        ensures
            step == after_outcome(self, reply),
    {
        match reply {
            Ok(outcome) => RpcStep::AskBlockProof {
                message: ViewClientMessage::GetBlockProof {
                    block_hash: outcome.block_hash,
                    head_block_hash: self.light_client_head,
                },
                wait: AwaitBlockProof {
                    metrics_name: self.metrics_name,
                    outcome_proof: outcome.outcome_proof,
                    outcome_root_proof: outcome.outcome_root_proof,
                },
            },
            Err(info) => failed(self.metrics_name, HandlerError::Node { info }),
        }
    }
}

impl AwaitBlockProof {
    /// The view client has replied with the place of the block.
    pub fn replied(self, reply: Result<BlockProof, Value>) -> (step: RpcStep)
        ensures
            step == after_block_proof(self, reply),
    {
        match reply {
            Ok(block_proof) => RpcStep::Serialize {
                response: RpcResponse::LightClientProof {
                    outcome_proof: self.outcome_proof,
                    outcome_root_proof: self.outcome_root_proof,
                    block_header_lite: block_proof.block_header_lite,
                    block_proof: block_proof.proof,
                },
                wait: AwaitSerialized { metrics_name: self.metrics_name },
            },
            Err(info) => failed(self.metrics_name, HandlerError::Node { info }),
        }
    }
}

impl AwaitWindows {
    /// The view client has replied with the maintenance windows.
    pub fn replied(self, reply: Result<Vec<Range<BlockHeight>>, Value>) -> (step: RpcStep)
        ensures
            after_windows(self, reply, step),
    {
        match reply {
            Ok(ranges) => {
                let mut windows: Vec<(BlockHeight, BlockHeight)> = Vec::new();
                let mut i: usize = 0;
                while i < ranges.len()
                    invariant
                        i <= ranges@.len(),
                        windows@ =~= Seq::new(
                            i as nat,
                            |j: int| (ranges@[j].start, ranges@[j].end),
                        ),
                    decreases ranges@.len() - i,
                {
                    windows.push((ranges[i].start, ranges[i].end));
                    i = i + 1;
                }
                RpcStep::Serialize {
                    response: RpcResponse::MaintenanceWindows { windows },
                    wait: AwaitSerialized { metrics_name: self.metrics_name },
                }
            },
            Err(info) => failed(self.metrics_name, HandlerError::Node { info }),
        }
    }
}

impl AwaitQuery {
    /// The view client has replied to the query.
    pub fn replied(self, reply: Result<RpcQueryResponse, RpcQueryError>) -> (step: RpcStep)
        ensures
            after_query(self, reply, step),
    {
        match process_query_response(reply) {
            QueryOutcome::Respond { response } => RpcStep::Serialize {
                response: RpcResponse::Query(response),
                wait: AwaitSerialized { metrics_name: self.metrics_name },
            },
            QueryOutcome::Explain { error, error_data } => RpcStep::Explain {
                error,
                wait: AwaitExplanation { metrics_name: self.metrics_name, error_data },
            },
            QueryOutcome::Ready { result } => RpcStep::Done {
                metrics_name: self.metrics_name,
                response: result,
            },
        }
    }
}

impl AwaitExplanation {
    /// The error was serialised, or failed to be.
    pub fn serialized(self, error_struct: Result<Value, SerializeError>) -> (step: RpcStep)
        ensures
            after_explanation(self, error_struct, step),
    {
        RpcStep::Done {
            metrics_name: self.metrics_name,
            response: Err(explain_query_error(self.error_data, error_struct)),
        }
    }
}

impl AwaitSpread {
    /// The message is on its way.
    pub fn spread(self) -> (step: RpcStep)
        ensures
            after_spread(self, step),
    {
        RpcStep::Done {
            metrics_name: self.metrics_name,
            response: Ok(text_value(String::new())),
        }
    }
}

impl AwaitStore {
    /// The client has replied with what is in store, if there is anything.
    pub fn replied(self, reply: Result<Option<Value>, MailboxError>) -> (step: RpcStep)
        ensures
            step == after_store(self, reply),
    {
        match reply {
            Ok(Some(value)) => RpcStep::Serialize {
                response: RpcResponse::Stored { value },
                wait: AwaitSerialized { metrics_name: self.metrics_name },
            },
            _ => RpcStep::Done {
                metrics_name: self.metrics_name,
                response: Err(RpcError::ServerError),
            },
        }
    }
}

impl SandboxTask {
    fn status(self) -> (message: ClientMessage)
        ensures
            message == status_of(self),
    {
        match self {
            SandboxTask::PatchState => ClientMessage::Sandbox(SandboxMessage::PatchStateStatus),
            SandboxTask::FastForward => ClientMessage::Sandbox(SandboxMessage::FastForwardStatus),
        }
    }
}

impl AwaitSandbox {
    /// The client has the task.
    pub fn replied(self, reply: Result<(), Value>) -> (step: RpcStep)
        ensures
            after_sandbox(self, reply, step),
    {
        match reply {
            Ok(_) => {
                let limit: Duration = match self.task {
                    SandboxTask::PatchState => self.polling_config.polling_timeout,
                    SandboxTask::FastForward => Duration::from_secs(60 * 60),
                };
                RpcStep::PollSandbox {
                    message: self.task.status(),
                    time_limit: Some(limit),
                    wait: SandboxPoll {
                        metrics_name: self.metrics_name,
                        polling_config: self.polling_config,
                        task: self.task,
                    },
                }
            },
            Err(info) => failed(self.metrics_name, HandlerError::Node { info }),
        }
    }
}

impl SandboxPoll {
    /// The client has replied on the task.
    pub fn replied(self, reply: Result<SandboxResponse, MailboxError>) -> (step: RpcStep)
        ensures
            after_sandbox_poll(self, reply, step),
    {
        match (self.task, reply) {
            (SandboxTask::PatchState, Ok(SandboxResponse::PatchStateFinished(true))) => {
                RpcStep::Serialize {
                    response: RpcResponse::SandboxPatchState,
                    wait: AwaitSerialized { metrics_name: self.metrics_name },
                }
            },
            (SandboxTask::FastForward, Ok(SandboxResponse::FastForwardFinished(true))) => {
                RpcStep::Serialize {
                    response: RpcResponse::SandboxFastForward,
                    wait: AwaitSerialized { metrics_name: self.metrics_name },
                }
            },
            (SandboxTask::FastForward, Ok(SandboxResponse::FastForwardFailed { error })) => {
                let error_message = "sandbox failed to fast forward due to: ".to_owned().concat(
                    error.as_str(),
                );
                failed(self.metrics_name, HandlerError::SandboxFastForward { error_message })
            },
            _ => RpcStep::SleepSandbox {
                interval: self.polling_config.polling_interval,
                wait: self,
            },
        }
    }

    /// The sleep is over.
    pub fn slept(self) -> (step: RpcStep)
        ensures
            step == (RpcStep::PollSandbox {
                message: status_of(self.task),
                time_limit: None,
                wait: self,
            }),
    {
        RpcStep::PollSandbox { message: self.task.status(), time_limit: None, wait: self }
    }

    /// Moving the chain forward has taken too long. (Changing the state happens with the next
    /// block, and is taken to end in time.)
    pub fn timed_out(self) -> (step: RpcStep)
        requires
            self.task is FastForward,
        ensures
            step matches RpcStep::Done {
                metrics_name,
                response: Err(RpcError::Handler(HandlerError::SandboxFastForward { error_message })),
            } && metrics_name == self.metrics_name && error_message@
                == "sandbox failed to fast forward within reasonable time of an hour"@,
    {
        failed(
            self.metrics_name,
            HandlerError::SandboxFastForward {
                error_message:
                    "sandbox failed to fast forward within reasonable time of an hour".to_owned(),
            },
        )
    }
}

impl AwaitSerialized {
    /// The response was serialised, or failed to be.
    pub fn serialized(self, value: Result<Value, SerializeError>) -> (step: RpcStep)
        ensures
            step == after_serialized(self, value),
    {
        RpcStep::Done { metrics_name: self.metrics_name, response: serialize_response(value) }
    }
}

} // verus!
