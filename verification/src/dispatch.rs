//! From a message to the method that it calls, and to what the method does first.
use crate::errors::{RpcError, RpcParseError};
use crate::handler::JsonRpcHandler;
use crate::methods::{law_names_are_distinct, AdversarialMethod, BasicMethod, Method};
use crate::node::{ClientMessage, NetworkAdversarialMessage, SandboxMessage, ViewClientMessage};
use crate::primitives::{AccountId, BlockHeight, BlockReference, CryptoHash};
use crate::query::RpcQueryRequest;
use crate::requests::{
    after_params, method_begins, suits, Answer, AwaitBlock, AwaitOutcome, AwaitParams,
    AwaitQuery, AwaitReceipt, AwaitReply, AwaitSandbox, AwaitSerialized, AwaitSpread, AwaitStore,
    AwaitTold, AwaitTransaction, AwaitWindows, Params, RpcResponse, RpcStep, SandboxTask,
};
use crate::text::same_text;
use serde_json::Value;
use vstd::prelude::*;

verus! {

/// The name of a method, and its parameters.
#[derive(Debug, PartialEq, Eq)]
pub struct MethodCall {
    pub method: String,
    pub params: Value,
}

/// A request: what it calls, and the id that it is answered under.
#[derive(Debug, PartialEq, Eq)]
pub struct Request {
    pub id: Value,
    pub call: MethodCall,
}

/// A message that came in.
#[derive(Debug, PartialEq, Eq)]
pub enum Message {
    Request(Request),
    /// Anything that is no request.
    Other,
}

/// A message that goes out.
#[derive(Debug, PartialEq, Eq)]
pub enum RpcMessage {
    /// The answer to the request of that id.
    Response { id: Value, result: Result<Value, RpcError> },
    /// What is said to a message that is no request.
    Error { error: RpcError },
}

/// What a message that came in leads to.
#[derive(Debug, PartialEq, Eq)]
pub enum Processing {
    /// It is answered at once.
    Answer(RpcMessage),
    /// It is handled, from this step on, and then answered under its id.
    Handle { id: Value, step: RpcStep },
}

/// How the handling of a call of the method begins.
pub open spec fn call_begins(method: Method, call: MethodCall) -> RpcStep {
    match method {
        Method::Adversarial(AdversarialMethod::DisableHeaderSync) => RpcStep::Spread {
            message: NetworkAdversarialMessage::AdvDisableHeaderSync,
            to_view_client: true,
            wait: AwaitSpread { metrics_name: call.method },
        },
        Method::Adversarial(AdversarialMethod::DisableDoomslug) => RpcStep::Spread {
            message: NetworkAdversarialMessage::AdvDisableDoomslug,
            to_view_client: true,
            wait: AwaitSpread { metrics_name: call.method },
        },
        Method::Adversarial(AdversarialMethod::GetSavedBlocks) => RpcStep::AskStore {
            message: ClientMessage::Adversarial(NetworkAdversarialMessage::AdvGetSavedBlocks),
            wait: AwaitStore { metrics_name: call.method },
        },
        Method::Adversarial(AdversarialMethod::CheckStore) => RpcStep::AskStore {
            message: ClientMessage::Adversarial(
                NetworkAdversarialMessage::AdvCheckStorageConsistency,
            ),
            wait: AwaitStore { metrics_name: call.method },
        },
        _ => RpcStep::Parse {
            params: call.params,
            wait: AwaitParams { method, metrics_name: call.method },
        },
    }
}

/// Whether `step` is what a call gets of a method that is not offered.
pub open spec fn is_refusal(call: MethodCall, step: RpcStep) -> bool {
    &&& step matches RpcStep::Done {
        metrics_name,
        response: Err(RpcError::MethodNotFound { method }),
    }
    &&& metrics_name@ == "UNSUPPORTED_METHOD"@
    &&& method == call.method
}

impl JsonRpcHandler {
    /// Whether the call is one of this method, and the node offers it.
    pub open spec fn calls(self, call: MethodCall, method: Method) -> bool {
        method.name() == call.method@ && method.is_offered(self.features)
    }

    /// Whether `step` is how the call is handled: as its method is, and by a refusal where
    /// there is none.
    pub open spec fn dispatches(self, call: MethodCall, step: RpcStep) -> bool {
        &&& forall|method: Method| #[trigger]
            self.calls(call, method) ==> step == call_begins(method, call)
        &&& (forall|method: Method| !#[trigger] self.calls(call, method)) ==> is_refusal(call, step)
    }

    /// Takes in a message. Only a request is handled.
    pub fn process(&self, message: Message) -> (processing: Processing)
        ensures
            match message {
                Message::Request(request) => {
                    &&& processing matches Processing::Handle { id, step }
                    &&& id == request.id
                    &&& self.dispatches(request.call, step)
                },
                Message::Other => {
                    &&& processing matches Processing::Answer(
                        RpcMessage::Error { error: RpcError::ParseError { message } },
                    )
                    &&& message@ == "JSON RPC Request format was expected"@
                },
            },
    {
        match message {
            Message::Request(request) => Processing::Handle {
                id: request.id,
                step: self.process_request_internal(request.call),
            },
            Message::Other => Processing::Answer(
                RpcMessage::Error {
                    error: RpcError::ParseError {
                        message: "JSON RPC Request format was expected".to_owned(),
                    },
                },
            ),
        }
    }

    /// Answers a request under its id.
    pub fn respond(id: Value, result: Result<Value, RpcError>) -> (message: RpcMessage)
        ensures
            message == (RpcMessage::Response { id, result }),
    {
        RpcMessage::Response { id, result }
    }

    /// Handles a call, whichever method it is of.
    pub fn process_request_internal(&self, call: MethodCall) -> (step: RpcStep)
        ensures
            self.dispatches(call, step),
    {
        proof {
            assert forall|one: Method, other: Method| #[trigger]
                one.name() == #[trigger] other.name() implies one == other by {
                law_names_are_distinct(one, other);
            }
        }
        let call = match self.process_adversarial_request_internal(call) {
            Ok(step) => return step,
            Err(call) => call,
        };
        let call = match self.process_basic_requests_internal(call) {
            Ok(step) => return step,
            Err(call) => call,
        };
        if same_text(&call.method, "query") {
            assert(self.calls(call, Method::Query));
            RpcStep::Parse {
                params: call.params,
                wait: AwaitParams { method: Method::Query, metrics_name: call.method },
            }
        } else {
            RpcStep::Done {
                metrics_name: "UNSUPPORTED_METHOD".to_owned(),
                response: Err(RpcError::MethodNotFound { method: call.method }),
            }
        }
    }

    /// Handles a call of a method that every node offers, or that a node that runs alone
    /// offers. Any other call is handed back.
    pub fn process_basic_requests_internal(&self, call: MethodCall) -> (handled: Result<
        RpcStep,
        MethodCall,
    >)
        ensures
            match handled {
                Ok(step) => exists|method: BasicMethod| #[trigger]
                    self.calls(call, Method::Basic(method)) && step == call_begins(
                        Method::Basic(method),
                        call,
                    ),
                Err(back) => back == call && forall|method: BasicMethod| !#[trigger] self.calls(
                    call,
                    Method::Basic(method),
                ),
            },
    {
        match BasicMethod::of_name(&call.method) {
            Some(method) => {
                if method.is_sandbox() && !self.features.sandbox {
                    proof {
                        assert forall|other: BasicMethod| !#[trigger] self.calls(
                            call,
                            Method::Basic(other),
                        ) by {
                            if other.name() == call.method@ {
                                law_names_are_distinct(
                                    Method::Basic(method),
                                    Method::Basic(other),
                                );
                            }
                        }
                    }
                    Err(call)
                } else {
                    assert(self.calls(call, Method::Basic(method)));
                    Ok(
                        RpcStep::Parse {
                            params: call.params,
                            wait: AwaitParams {
                                method: Method::Basic(method),
                                metrics_name: call.method,
                            },
                        },
                    )
                }
            },
            None => Err(call),
        }
    }

    /// Handles a call of a method that makes a node misbehave, if the node has them. Any other
    /// call is handed back.
    pub fn process_adversarial_request_internal(&self, call: MethodCall) -> (handled: Result<
        RpcStep,
        MethodCall,
    >)
        ensures
            match handled {
                Ok(step) => exists|method: AdversarialMethod| #[trigger]
                    self.calls(call, Method::Adversarial(method)) && step == call_begins(
                        Method::Adversarial(method),
                        call,
                    ),
                Err(back) => back == call && forall|method: AdversarialMethod|
                    !#[trigger] self.calls(call, Method::Adversarial(method)),
            },
    {
        if !self.features.test_features {
            return Err(call);
        }
        let method = match AdversarialMethod::of_name(&call.method) {
            Some(method) => method,
            None => return Err(call),
        };
        assert(self.calls(call, Method::Adversarial(method)));
        Ok(
            match method {
                AdversarialMethod::DisableHeaderSync => RpcStep::Spread {
                    message: NetworkAdversarialMessage::AdvDisableHeaderSync,
                    to_view_client: true,
                    wait: AwaitSpread { metrics_name: call.method },
                },
                AdversarialMethod::DisableDoomslug => RpcStep::Spread {
                    message: NetworkAdversarialMessage::AdvDisableDoomslug,
                    to_view_client: true,
                    wait: AwaitSpread { metrics_name: call.method },
                },
                AdversarialMethod::GetSavedBlocks => RpcStep::AskStore {
                    message: ClientMessage::Adversarial(
                        NetworkAdversarialMessage::AdvGetSavedBlocks,
                    ),
                    wait: AwaitStore { metrics_name: call.method },
                },
                AdversarialMethod::CheckStore => RpcStep::AskStore {
                    message: ClientMessage::Adversarial(
                        NetworkAdversarialMessage::AdvCheckStorageConsistency,
                    ),
                    wait: AwaitStore { metrics_name: call.method },
                },
                AdversarialMethod::ProduceBlocks | AdversarialMethod::SwitchToHeight => {
                    RpcStep::Parse {
                        params: call.params,
                        wait: AwaitParams {
                            method: Method::Adversarial(method),
                            metrics_name: call.method,
                        },
                    }
                },
            },
        )
    }

    /// The parameters of a call were read, or could not be.
    pub fn process_method_call(
        &self,
        wait: AwaitParams,
        params: Result<Params, RpcParseError>,
    ) -> (step: RpcStep)
        requires
            params matches Ok(params) ==> suits(wait.method, params),
        ensures
            after_params(self.polling_config, wait, params, step),
    {
        let metrics_name = wait.metrics_name;
        let params = match params {
            Ok(params) => params,
            Err(error) => {
                return RpcStep::Done {
                    metrics_name,
                    response: Err(RpcError::InvalidParams(error)),
                };
            },
        };
        match (wait.method, params) {
            (Method::Basic(method), params) => self.begin(method, params, metrics_name),
            (Method::Query, Params::Query(request)) => {
                let metrics_name = request.request.metrics_name();
                RpcStep::AskQuery {
                    message: self.query(request),
                    wait: AwaitQuery { metrics_name },
                }
            },
            (
                Method::Adversarial(AdversarialMethod::ProduceBlocks),
                Params::AdvProduceBlocks { num_blocks, only_valid },
            ) => RpcStep::Spread {
                message: NetworkAdversarialMessage::AdvProduceBlocks { num_blocks, only_valid },
                to_view_client: false,
                wait: AwaitSpread { metrics_name },
            },
            (
                Method::Adversarial(AdversarialMethod::SwitchToHeight),
                Params::AdvSwitchToHeight { height },
            ) => RpcStep::Spread {
                message: NetworkAdversarialMessage::AdvSwitchToHeight { height },
                to_view_client: true,
                wait: AwaitSpread { metrics_name },
            },
            _ => vstd::pervasive::unreached(),
        }
    }

    /// Does the first thing that a method does.
    fn begin(&self, method: BasicMethod, params: Params, metrics_name: String) -> (step: RpcStep)
        requires
            suits(Method::Basic(method), params),
        ensures
            step == method_begins(self.polling_config, method, params, metrics_name),
    {
        match (method, params) {
            (BasicMethod::Block, Params::Block { block_reference }) => RpcStep::AskViewClient {
                message: self.block(block_reference),
                wait: AwaitReply { metrics_name, answer: Answer::Block },
            },
            (BasicMethod::BroadcastTxAsync, Params::SendTransaction(request)) => {
                let (message, hash) = self.send_tx_async(request);
                RpcStep::Tell { message, wait: AwaitTold { metrics_name, hash } }
            },
            (BasicMethod::BroadcastTxCommit, Params::SendTransaction(request)) => {
                RpcStep::Transaction {
                    step: self.send_tx_commit(request),
                    wait: AwaitTransaction { metrics_name },
                }
            },
            (BasicMethod::Chunk, Params::Chunk { chunk_reference }) => RpcStep::AskViewClient {
                message: self.chunk(chunk_reference),
                wait: AwaitReply { metrics_name, answer: Answer::Chunk },
            },
            (BasicMethod::GasPrice, Params::GasPrice { block_id }) => RpcStep::AskViewClient {
                message: self.gas_price(block_id),
                wait: AwaitReply { metrics_name, answer: Answer::GasPrice },
            },
            (BasicMethod::Health, _) => RpcStep::AskClient {
                message: self.health(),
                wait: AwaitReply { metrics_name, answer: Answer::Health },
            },
            (
                BasicMethod::LightClientProof | BasicMethod::ExperimentalLightClientProof,
                Params::LightClientProof { id, light_client_head },
            ) => self.light_client_execution_outcome_proof(id, light_client_head, metrics_name),
            (
                BasicMethod::NextLightClientBlock,
                Params::NextLightClientBlock { last_block_hash },
            ) => RpcStep::AskViewClient {
                message: self.next_light_client_block(last_block_hash),
                wait: AwaitReply { metrics_name, answer: Answer::NextLightClientBlock },
            },
            (BasicMethod::NetworkInfo, _) => RpcStep::AskClient {
                message: self.network_info(),
                wait: AwaitReply { metrics_name, answer: Answer::NetworkInfo },
            },
            (BasicMethod::SendTx, Params::SendTransaction(request)) => RpcStep::Transaction {
                step: self.send_tx(request),
                wait: AwaitTransaction { metrics_name },
            },
            (BasicMethod::Status, _) => RpcStep::AskClient {
                message: self.status(),
                wait: AwaitReply { metrics_name, answer: Answer::Status },
            },
            (BasicMethod::Tx, Params::TransactionStatus(request)) => RpcStep::Transaction {
                step: self.tx_status_common(request, false),
                wait: AwaitTransaction { metrics_name },
            },
            (BasicMethod::ExperimentalTxStatus, Params::TransactionStatus(request)) => {
                RpcStep::Transaction {
                    step: self.tx_status_common(request, true),
                    wait: AwaitTransaction { metrics_name },
                }
            },
            (BasicMethod::Validators, Params::Validators { epoch_reference }) => {
                RpcStep::AskViewClient {
                    message: self.validators(epoch_reference),
                    wait: AwaitReply { metrics_name, answer: Answer::Validators },
                }
            },
            (BasicMethod::ClientConfig, _) => RpcStep::AskClient {
                message: self.client_config(),
                wait: AwaitReply { metrics_name, answer: Answer::ClientConfig },
            },
            (
                BasicMethod::ExperimentalChanges,
                Params::Changes { block_reference, state_changes_request },
            ) => self.changes_in_block_by_type(
                block_reference,
                state_changes_request,
                metrics_name,
            ),
            (
                BasicMethod::ExperimentalChangesInBlock,
                Params::ChangesInBlock { block_reference },
            ) => self.changes_in_block(block_reference, metrics_name),
            (BasicMethod::ExperimentalGenesisConfig, _) => RpcStep::Serialize {
                response: RpcResponse::GenesisConfig,
                wait: AwaitSerialized { metrics_name },
            },
            (
                BasicMethod::ExperimentalProtocolConfig,
                Params::ProtocolConfig { block_reference },
            ) => RpcStep::AskViewClient {
                message: self.protocol_config(block_reference),
                wait: AwaitReply { metrics_name, answer: Answer::ProtocolConfig },
            },
            (BasicMethod::ExperimentalReceipt, Params::Receipt { receipt_id }) => {
                self.receipt(receipt_id, metrics_name)
            },
            (
                BasicMethod::ExperimentalValidatorsOrdered,
                Params::ValidatorsOrdered { block_id },
            ) => RpcStep::AskViewClient {
                message: self.validators_ordered(block_id),
                wait: AwaitReply { metrics_name, answer: Answer::ValidatorsOrdered },
            },
            (
                BasicMethod::ExperimentalMaintenanceWindows,
                Params::MaintenanceWindows { account_id },
            ) => self.maintenance_windows(account_id, metrics_name),
            (BasicMethod::ExperimentalSplitStorageInfo, _) => RpcStep::AskViewClient {
                message: self.split_storage_info(),
                wait: AwaitReply { metrics_name, answer: Answer::SplitStorageInfo },
            },
            (BasicMethod::SandboxPatchState, Params::SandboxPatchState { records }) => {
                self.sandbox_patch_state(records, metrics_name)
            },
            (BasicMethod::SandboxFastForward, Params::SandboxFastForward { delta_height }) => {
                self.sandbox_fast_forward(delta_height, metrics_name)
            },
            (BasicMethod::Provider, Params::Provider { epoch_id, block_height }) => {
                RpcStep::AskViewClient {
                    message: self.get_provider(epoch_id, block_height),
                    wait: AwaitReply { metrics_name, answer: Answer::Provider },
                }
            },
            _ => vstd::pervasive::unreached(),
        }
    }

    /// The message that asks for the health of the node.
    pub fn health(&self) -> (message: ClientMessage)
        ensures
            message == (ClientMessage::Status { is_health_check: true, detailed: false }),
    {
        ClientMessage::Status { is_health_check: true, detailed: false }
    }

    /// The message that asks for the status of the node.
    pub fn status(&self) -> (message: ClientMessage)
        ensures
            message == (ClientMessage::Status { is_health_check: false, detailed: false }),
    {
        ClientMessage::Status { is_health_check: false, detailed: false }
    }

    /// The message that asks for the peers of the node.
    pub fn network_info(&self) -> (message: ClientMessage)
        ensures
            message == ClientMessage::GetNetworkInfo,
    {
        ClientMessage::GetNetworkInfo
    }

    /// The message that asks for the configuration of the client.
    pub fn client_config(&self) -> (message: ClientMessage)
        ensures
            message == ClientMessage::GetClientConfig,
    {
        ClientMessage::GetClientConfig
    }

    /// The message that asks for the configuration of the protocol.
    pub fn protocol_config(&self, block_reference: BlockReference) -> (message: ViewClientMessage)
        ensures
            message == (ViewClientMessage::GetProtocolConfig { block_reference }),
    {
        ViewClientMessage::GetProtocolConfig { block_reference }
    }

    /// The message that puts a query.
    pub fn query(&self, request_data: RpcQueryRequest) -> (message: ViewClientMessage)
        ensures
            message == (ViewClientMessage::Query {
                block_reference: request_data.block_reference,
                request: request_data.request,
            }),
    {
        ViewClientMessage::Query {
            block_reference: request_data.block_reference,
            request: request_data.request,
        }
    }

    /// The message that asks for the provider of an epoch.
    pub fn get_provider(&self, epoch_id: Value, block_height: BlockHeight) -> (message:
        ViewClientMessage)
        ensures
            message == (ViewClientMessage::GetProvider { epoch_id, block_height }),
    {
        ViewClientMessage::GetProvider { epoch_id, block_height }
    }

    /// The message that asks for a block.
    pub fn block(&self, block_reference: BlockReference) -> (message: ViewClientMessage)
        ensures
            message == (ViewClientMessage::GetBlock { block_reference }),
    {
        ViewClientMessage::GetBlock { block_reference }
    }

    /// The message that asks for a chunk.
    pub fn chunk(&self, chunk_reference: Value) -> (message: ViewClientMessage)
        ensures
            message == (ViewClientMessage::GetChunk { chunk_reference }),
    {
        ViewClientMessage::GetChunk { chunk_reference }
    }

    /// The message that asks for the block that follows for a light client.
    pub fn next_light_client_block(&self, last_block_hash: CryptoHash) -> (message:
        ViewClientMessage)
        ensures
            message == (ViewClientMessage::GetNextLightClientBlock { last_block_hash }),
    {
        ViewClientMessage::GetNextLightClientBlock { last_block_hash }
    }

    /// The message that asks for the price of gas.
    pub fn gas_price(&self, block_id: Value) -> (message: ViewClientMessage)
        ensures
            message == (ViewClientMessage::GetGasPrice { block_id }),
    {
        ViewClientMessage::GetGasPrice { block_id }
    }

    /// The message that asks for the validators of an epoch.
    pub fn validators(&self, epoch_reference: Value) -> (message: ViewClientMessage)
        ensures
            message == (ViewClientMessage::GetValidatorInfo { epoch_reference }),
    {
        ViewClientMessage::GetValidatorInfo { epoch_reference }
    }

    /// The message that asks for the validators in the order in which they produce blocks,
    /// with repetition.
    pub fn validators_ordered(&self, block_id: Value) -> (message: ViewClientMessage)
        ensures
            message == (ViewClientMessage::GetValidatorOrdered { block_id }),
    {
        ViewClientMessage::GetValidatorOrdered { block_id }
    }

    /// The message that asks for the state of a split storage.
    pub fn split_storage_info(&self) -> (message: ViewClientMessage)
        ensures
            message == ViewClientMessage::GetSplitStorageInfo,
    {
        ViewClientMessage::GetSplitStorageInfo
    }

    /// Asks for a receipt.
    fn receipt(&self, receipt_id: CryptoHash, metrics_name: String) -> (step: RpcStep)
        ensures
            step == (RpcStep::AskReceipt {
                message: ViewClientMessage::GetReceipt { receipt_id },
                wait: AwaitReceipt { metrics_name, receipt_id },
            }),
    {
        RpcStep::AskReceipt {
            message: ViewClientMessage::GetReceipt { receipt_id: receipt_id.clone() },
            wait: AwaitReceipt { metrics_name, receipt_id },
        }
    }

    /// Asks for the block whose changes are asked for.
    fn changes_in_block(&self, block_reference: BlockReference, metrics_name: String) -> (step:
        RpcStep)
        ensures
            step == (RpcStep::AskBlock {
                message: ViewClientMessage::GetBlock { block_reference },
                wait: AwaitBlock { metrics_name, state_changes_request: None },
            }),
    {
        RpcStep::AskBlock {
            message: self.block(block_reference),
            wait: AwaitBlock { metrics_name, state_changes_request: None },
        }
    }

    /// Asks for the block whose changes of a kind are asked for.
    fn changes_in_block_by_type(
        &self,
        block_reference: BlockReference,
        state_changes_request: Value,
        metrics_name: String,
    ) -> (step: RpcStep)
        ensures
            step == (RpcStep::AskBlock {
                message: ViewClientMessage::GetBlock { block_reference },
                wait: AwaitBlock {
                    metrics_name,
                    state_changes_request: Some(state_changes_request),
                },
            }),
    {
        RpcStep::AskBlock {
            message: self.block(block_reference),
            wait: AwaitBlock { metrics_name, state_changes_request: Some(state_changes_request) },
        }
    }

    /// Asks for the outcome that is to be proved to a light client.
    fn light_client_execution_outcome_proof(
        &self,
        id: Value,
        light_client_head: CryptoHash,
        metrics_name: String,
    ) -> (step: RpcStep)
        ensures
            step == (RpcStep::AskOutcome {
                message: ViewClientMessage::GetExecutionOutcome { id },
                wait: AwaitOutcome { metrics_name, light_client_head },
            }),
    {
        RpcStep::AskOutcome {
            message: ViewClientMessage::GetExecutionOutcome { id },
            wait: AwaitOutcome { metrics_name, light_client_head },
        }
    }

    /// Asks for the windows in which the node produces neither blocks nor chunks.
    fn maintenance_windows(&self, account_id: AccountId, metrics_name: String) -> (step: RpcStep)
        ensures
            step == (RpcStep::AskWindows {
                message: ViewClientMessage::GetMaintenanceWindows { account_id },
                wait: AwaitWindows { metrics_name },
            }),
    {
        RpcStep::AskWindows {
            message: ViewClientMessage::GetMaintenanceWindows { account_id },
            wait: AwaitWindows { metrics_name },
        }
    }

    /// Changes the state of a node that runs alone.
    fn sandbox_patch_state(&self, records: Value, metrics_name: String) -> (step: RpcStep)
        ensures
            step == (RpcStep::AskSandbox {
                message: ClientMessage::Sandbox(SandboxMessage::PatchState { records }),
                wait: AwaitSandbox {
                    metrics_name,
                    polling_config: self.polling_config,
                    task: SandboxTask::PatchState,
                },
            }),
    {
        RpcStep::AskSandbox {
            message: ClientMessage::Sandbox(SandboxMessage::PatchState { records }),
            wait: AwaitSandbox {
                metrics_name,
                polling_config: self.polling_config,
                task: SandboxTask::PatchState,
            },
        }
    }

    /// Moves the chain of a node that runs alone forward.
    fn sandbox_fast_forward(&self, delta_height: BlockHeight, metrics_name: String) -> (step:
        RpcStep)
        ensures
            step == (RpcStep::AskSandbox {
                message: ClientMessage::Sandbox(SandboxMessage::FastForward { delta_height }),
                wait: AwaitSandbox {
                    metrics_name,
                    polling_config: self.polling_config,
                    task: SandboxTask::FastForward,
                },
            }),
    {
        RpcStep::AskSandbox {
            message: ClientMessage::Sandbox(SandboxMessage::FastForward { delta_height }),
            wait: AwaitSandbox {
                metrics_name,
                polling_config: self.polling_config,
                task: SandboxTask::FastForward,
            },
        }
    }
}

} // verus!
