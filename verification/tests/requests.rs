use serde_json::Value;
use std::time::Duration;
use unc_jsonrpc::config::RpcPollingConfig;
use unc_jsonrpc::dispatch::MethodCall;
use unc_jsonrpc::errors::{
    serialize_response, HandlerError, MailboxError, RpcError, RpcParseError, RpcQueryError,
    SerializeError,
};
use unc_jsonrpc::handler::{Features, JsonRpcHandler};
use unc_jsonrpc::methods::{AdversarialMethod, BasicMethod, Method};
use unc_jsonrpc::node::{
    ClientMessage, NetworkAdversarialMessage, SandboxMessage, SandboxResponse, ViewClientMessage,
};
use unc_jsonrpc::primitives::{
    BlockId, BlockReference, CryptoHash, RpcTransactionError, SignedTransaction,
    TxExecutionStatus,
};
use unc_jsonrpc::query::{QueryRequest, RpcQueryRequest, RpcQueryResponse};
use unc_jsonrpc::requests::{
    params_suit, Answer, AwaitBlock, AwaitExplanation, AwaitOutcome, AwaitParams, AwaitQuery,
    AwaitReceipt, AwaitReply, AwaitSandbox, AwaitSerialized, AwaitSpread, AwaitStore, AwaitTold,
    AwaitTransaction, AwaitWindows, BlockProof, ExecutionOutcome, Params, RpcResponse, RpcStep,
    SandboxPoll, SandboxTask,
};
use unc_jsonrpc::transactions::{
    ProcessTxRequest, RpcSendTransactionRequest, RpcTransactionResponse,
    RpcTransactionStatusRequest, TransactionInfo,
};

const INTERVAL: Duration = Duration::from_millis(250);
const TIMEOUT: Duration = Duration::from_secs(3);

fn polling_config() -> RpcPollingConfig {
    RpcPollingConfig { polling_interval: INTERVAL, polling_timeout: TIMEOUT }
}

fn handler() -> JsonRpcHandler {
    JsonRpcHandler {
        polling_config: polling_config(),
        enable_debug_rpc: false,
        debug_pages_src_path: None,
        features: Features { sandbox: true, test_features: true },
    }
}

fn name() -> String {
    "counted".to_string()
}

fn hash() -> CryptoHash {
    CryptoHash { base58: "6zgh2u9DqHHi".to_string() }
}

fn value(text: &str) -> Value {
    Value::from(text)
}

fn block_reference() -> BlockReference {
    BlockReference::BlockId(BlockId::Height(12))
}

fn transaction() -> SignedTransaction {
    SignedTransaction {
        hash: hash(),
        signer_id: "alice".to_string(),
        encoded: "DgAAAHNlbmRlci50".to_string(),
    }
}

fn send_params(wait_until: TxExecutionStatus) -> Params {
    Params::SendTransaction(RpcSendTransactionRequest {
        signed_transaction: transaction(),
        wait_until,
    })
}

fn status_params() -> Params {
    Params::TransactionStatus(status_request())
}

fn status_request() -> RpcTransactionStatusRequest {
    RpcTransactionStatusRequest {
        transaction_info: TransactionInfo::Transaction(transaction()),
        wait_until: TxExecutionStatus::Final,
    }
}

fn called(method: Method, params: Params) -> RpcStep {
    assert!(params_suit(method, &params));
    handler().process_method_call(AwaitParams { method, metrics_name: name() }, Ok(params))
}

fn begun(method: BasicMethod, params: Params) -> RpcStep {
    called(Method::Basic(method), params)
}

fn serialized(response: RpcResponse) -> RpcStep {
    RpcStep::Serialize { response, wait: AwaitSerialized { metrics_name: name() } }
}

fn failed(error: HandlerError) -> RpcStep {
    RpcStep::Done { metrics_name: name(), response: Err(RpcError::Handler(error)) }
}

fn node_error() -> RpcStep {
    failed(HandlerError::Node { info: value("refused") })
}

fn view_client(message: ViewClientMessage, answer: Answer) -> RpcStep {
    RpcStep::AskViewClient { message, wait: AwaitReply { metrics_name: name(), answer } }
}

fn client(message: ClientMessage, answer: Answer) -> RpcStep {
    RpcStep::AskClient { message, wait: AwaitReply { metrics_name: name(), answer } }
}

#[test]
fn parameters_that_cannot_be_read() {
    let error = || RpcParseError { message: "missing field".to_string() };
    for method in [
        Method::Basic(BasicMethod::Block),
        Method::Adversarial(AdversarialMethod::SwitchToHeight),
        Method::Query,
    ] {
        assert_eq!(
            handler().process_method_call(
                AwaitParams { method, metrics_name: name() },
                Err(error())
            ),
            RpcStep::Done {
                metrics_name: name(),
                response: Err(RpcError::InvalidParams(error())),
            }
        );
    }
}

#[test]
fn parameters_of_another_method() {
    assert!(!params_suit(Method::Basic(BasicMethod::Block), &Params::Empty));
    assert!(!params_suit(
        Method::Basic(BasicMethod::Block),
        &Params::ProtocolConfig { block_reference: block_reference() }
    ));
    assert!(!params_suit(Method::Query, &Params::Empty));
    assert!(!params_suit(
        Method::Adversarial(AdversarialMethod::CheckStore),
        &Params::AdvSwitchToHeight { height: 1 }
    ));
    assert!(params_suit(Method::Basic(BasicMethod::Health), &Params::Empty));
}

#[test]
fn methods_that_ask_the_client() {
    assert_eq!(
        begun(BasicMethod::Health, Params::Empty),
        client(
            ClientMessage::Status { is_health_check: true, detailed: false },
            Answer::Health
        )
    );
    assert_eq!(
        begun(BasicMethod::Status, Params::Empty),
        client(
            ClientMessage::Status { is_health_check: false, detailed: false },
            Answer::Status
        )
    );
    assert_eq!(
        begun(BasicMethod::NetworkInfo, Params::Empty),
        client(ClientMessage::GetNetworkInfo, Answer::NetworkInfo)
    );
    assert_eq!(
        begun(BasicMethod::ClientConfig, Params::Empty),
        client(ClientMessage::GetClientConfig, Answer::ClientConfig)
    );
}

#[test]
fn methods_that_ask_the_view_client() {
    assert_eq!(
        begun(BasicMethod::Block, Params::Block { block_reference: block_reference() }),
        view_client(
            ViewClientMessage::GetBlock { block_reference: block_reference() },
            Answer::Block
        )
    );
    assert_eq!(
        begun(BasicMethod::Chunk, Params::Chunk { chunk_reference: value("chunk") }),
        view_client(
            ViewClientMessage::GetChunk { chunk_reference: value("chunk") },
            Answer::Chunk
        )
    );
    assert_eq!(
        begun(BasicMethod::GasPrice, Params::GasPrice { block_id: Value::Null }),
        view_client(ViewClientMessage::GetGasPrice { block_id: Value::Null }, Answer::GasPrice)
    );
    assert_eq!(
        begun(
            BasicMethod::NextLightClientBlock,
            Params::NextLightClientBlock { last_block_hash: hash() }
        ),
        view_client(
            ViewClientMessage::GetNextLightClientBlock { last_block_hash: hash() },
            Answer::NextLightClientBlock
        )
    );
    assert_eq!(
        begun(BasicMethod::Validators, Params::Validators { epoch_reference: value("latest") }),
        view_client(
            ViewClientMessage::GetValidatorInfo { epoch_reference: value("latest") },
            Answer::Validators
        )
    );
    assert_eq!(
        begun(
            BasicMethod::ExperimentalProtocolConfig,
            Params::ProtocolConfig { block_reference: block_reference() }
        ),
        view_client(
            ViewClientMessage::GetProtocolConfig { block_reference: block_reference() },
            Answer::ProtocolConfig
        )
    );
    assert_eq!(
        begun(
            BasicMethod::ExperimentalValidatorsOrdered,
            Params::ValidatorsOrdered { block_id: Value::Null }
        ),
        view_client(
            ViewClientMessage::GetValidatorOrdered { block_id: Value::Null },
            Answer::ValidatorsOrdered
        )
    );
    assert_eq!(
        begun(BasicMethod::ExperimentalSplitStorageInfo, Params::Empty),
        view_client(ViewClientMessage::GetSplitStorageInfo, Answer::SplitStorageInfo)
    );
    assert_eq!(
        begun(
            BasicMethod::Provider,
            Params::Provider { epoch_id: value("epoch"), block_height: 9 }
        ),
        view_client(
            ViewClientMessage::GetProvider { epoch_id: value("epoch"), block_height: 9 },
            Answer::Provider
        )
    );
}

#[test]
fn genesis_config_asks_nobody() {
    assert_eq!(
        begun(BasicMethod::ExperimentalGenesisConfig, Params::Empty),
        serialized(RpcResponse::GenesisConfig)
    );
}

#[test]
fn sending_asynchronously() {
    assert_eq!(
        begun(BasicMethod::BroadcastTxAsync, send_params(TxExecutionStatus::Final)),
        RpcStep::Tell {
            message: ProcessTxRequest {
                transaction: transaction(),
                is_forwarded: false,
                check_only: false,
            },
            wait: AwaitTold { metrics_name: name(), hash: hash() },
        }
    );
    let wait = AwaitTold { metrics_name: name(), hash: hash() };
    assert_eq!(
        wait.told(),
        serialized(RpcResponse::TransactionHash { hash: "6zgh2u9DqHHi".to_string() })
    );
}

#[test]
fn conversations_begin() {
    let conversation =
        |step| RpcStep::Transaction { step, wait: AwaitTransaction { metrics_name: name() } };
    let send = || RpcSendTransactionRequest {
        signed_transaction: transaction(),
        wait_until: TxExecutionStatus::Stage(2),
    };
    assert_eq!(
        begun(BasicMethod::SendTx, send_params(TxExecutionStatus::Stage(2))),
        conversation(handler().send_tx(send()))
    );
    assert_eq!(
        begun(BasicMethod::BroadcastTxCommit, send_params(TxExecutionStatus::Stage(2))),
        conversation(handler().send_tx_commit(send()))
    );
    assert_eq!(
        begun(BasicMethod::Tx, status_params()),
        conversation(handler().tx_status_common(status_request(), false))
    );
    assert_eq!(
        begun(BasicMethod::ExperimentalTxStatus, status_params()),
        conversation(handler().tx_status_common(status_request(), true))
    );
}

#[test]
fn conversations_end() {
    let response = || RpcTransactionResponse {
        final_execution_outcome: Some(value("outcome")),
        final_execution_status: TxExecutionStatus::Final,
    };
    let wait = AwaitTransaction { metrics_name: name() };
    assert_eq!(wait.finished(Ok(response())), serialized(RpcResponse::Transaction(response())));
    let wait = AwaitTransaction { metrics_name: name() };
    assert_eq!(
        wait.finished(Err(RpcTransactionError::TimeoutError)),
        failed(HandlerError::Transaction(RpcTransactionError::TimeoutError))
    );
}

#[test]
fn replies_are_passed_on() {
    let wait = AwaitReply { metrics_name: name(), answer: Answer::Status };
    assert_eq!(
        wait.replied(Ok(value("fine"))),
        serialized(RpcResponse::Reply { answer: Answer::Status, value: value("fine") })
    );
    let wait = AwaitReply { metrics_name: name(), answer: Answer::Status };
    assert_eq!(wait.replied(Err(value("refused"))), node_error());
}

#[test]
fn changes_of_a_kind() {
    assert_eq!(
        begun(
            BasicMethod::ExperimentalChanges,
            Params::Changes {
                block_reference: block_reference(),
                state_changes_request: value("accounts"),
            }
        ),
        RpcStep::AskBlock {
            message: ViewClientMessage::GetBlock { block_reference: block_reference() },
            wait: AwaitBlock {
                metrics_name: name(),
                state_changes_request: Some(value("accounts")),
            },
        }
    );
    let wait = || AwaitBlock {
        metrics_name: name(),
        state_changes_request: Some(value("accounts")),
    };
    assert_eq!(
        wait().replied(Ok(hash())),
        view_client(
            ViewClientMessage::GetStateChanges {
                block_hash: hash(),
                state_changes_request: value("accounts"),
            },
            Answer::Changes { block_hash: hash() }
        )
    );
    assert_eq!(wait().replied(Err(value("refused"))), node_error());
}

#[test]
fn changes_of_a_block() {
    assert_eq!(
        begun(
            BasicMethod::ExperimentalChangesInBlock,
            Params::ChangesInBlock { block_reference: block_reference() }
        ),
        RpcStep::AskBlock {
            message: ViewClientMessage::GetBlock { block_reference: block_reference() },
            wait: AwaitBlock { metrics_name: name(), state_changes_request: None },
        }
    );
    let wait = AwaitBlock { metrics_name: name(), state_changes_request: None };
    assert_eq!(
        wait.replied(Ok(hash())),
        view_client(
            ViewClientMessage::GetStateChangesInBlock { block_hash: hash() },
            Answer::ChangesInBlock { block_hash: hash() }
        )
    );
}

#[test]
fn receipts() {
    assert_eq!(
        begun(BasicMethod::ExperimentalReceipt, Params::Receipt { receipt_id: hash() }),
        RpcStep::AskReceipt {
            message: ViewClientMessage::GetReceipt { receipt_id: hash() },
            wait: AwaitReceipt { metrics_name: name(), receipt_id: hash() },
        }
    );
    let wait = || AwaitReceipt { metrics_name: name(), receipt_id: hash() };
    assert_eq!(
        wait().replied(Ok(Some(value("receipt")))),
        serialized(RpcResponse::Receipt { receipt_view: value("receipt") })
    );
    assert_eq!(
        wait().replied(Ok(None)),
        failed(HandlerError::UnknownReceipt { receipt_id: hash() })
    );
    assert_eq!(wait().replied(Err(value("refused"))), node_error());
}

#[test]
fn light_client_proofs() {
    let head = || CryptoHash { base58: "head".to_string() };
    for method in [BasicMethod::LightClientProof, BasicMethod::ExperimentalLightClientProof] {
        assert_eq!(
            begun(
                method,
                Params::LightClientProof { id: value("id"), light_client_head: head() }
            ),
            RpcStep::AskOutcome {
                message: ViewClientMessage::GetExecutionOutcome { id: value("id") },
                wait: AwaitOutcome { metrics_name: name(), light_client_head: head() },
            }
        );
    }
    let outcome = || ExecutionOutcome {
        block_hash: hash(),
        outcome_proof: value("outcome"),
        outcome_root_proof: value("root"),
    };
    let wait = AwaitOutcome { metrics_name: name(), light_client_head: head() };
    let wait = match wait.replied(Ok(outcome())) {
        RpcStep::AskBlockProof { message, wait } => {
            assert_eq!(
                message,
                ViewClientMessage::GetBlockProof { block_hash: hash(), head_block_hash: head() }
            );
            wait
        }
        other => panic!("no block is asked for: {:?}", other),
    };
    assert_eq!(
        wait.replied(Ok(BlockProof {
            block_header_lite: value("header"),
            proof: value("proof"),
        })),
        serialized(RpcResponse::LightClientProof {
            outcome_proof: value("outcome"),
            outcome_root_proof: value("root"),
            block_header_lite: value("header"),
            block_proof: value("proof"),
        })
    );
    let wait = AwaitOutcome { metrics_name: name(), light_client_head: head() };
    assert_eq!(wait.replied(Err(value("refused"))), node_error());
    let wait = AwaitOutcome { metrics_name: name(), light_client_head: head() };
    match wait.replied(Ok(outcome())) {
        RpcStep::AskBlockProof { wait, .. } => {
            assert_eq!(wait.replied(Err(value("refused"))), node_error())
        }
        other => panic!("no block is asked for: {:?}", other),
    }
}

#[test]
fn maintenance_windows_are_pairs() {
    assert_eq!(
        begun(
            BasicMethod::ExperimentalMaintenanceWindows,
            Params::MaintenanceWindows { account_id: "alice".to_string() }
        ),
        RpcStep::AskWindows {
            message: ViewClientMessage::GetMaintenanceWindows {
                account_id: "alice".to_string(),
            },
            wait: AwaitWindows { metrics_name: name() },
        }
    );
    let wait = AwaitWindows { metrics_name: name() };
    assert_eq!(
        wait.replied(Ok(vec![3..5, 8..8, 20..30])),
        serialized(RpcResponse::MaintenanceWindows { windows: vec![(3, 5), (8, 8), (20, 30)] })
    );
    let wait = AwaitWindows { metrics_name: name() };
    assert_eq!(
        wait.replied(Ok(vec![])),
        serialized(RpcResponse::MaintenanceWindows { windows: vec![] })
    );
    let wait = AwaitWindows { metrics_name: name() };
    assert_eq!(wait.replied(Err(value("refused"))), node_error());
}

#[test]
fn query_is_counted_by_its_kind() {
    let request = || QueryRequest::ViewState { include_proof: true, params: value("state") };
    assert_eq!(
        called(
            Method::Query,
            Params::Query(RpcQueryRequest {
                block_reference: block_reference(),
                request: request(),
            })
        ),
        RpcStep::AskQuery {
            message: ViewClientMessage::Query {
                block_reference: block_reference(),
                request: request(),
            },
            wait: AwaitQuery { metrics_name: "query_view_state_with_proof".to_string() },
        }
    );
}

#[test]
fn answers_to_a_query() {
    let wait = || AwaitQuery { metrics_name: name() };
    let response = || RpcQueryResponse { response: value("state") };
    assert_eq!(wait().replied(Ok(response())), serialized(RpcResponse::Query(response())));
    match wait().replied(Err(RpcQueryError::ContractExecutionError {
        vm_error: "no such function".to_string(),
        block_height: 3,
        block_hash: hash(),
    })) {
        RpcStep::Done { metrics_name, response: Ok(document) } => {
            assert_eq!(metrics_name, name());
            assert_eq!(document["error"], value("no such function"));
            assert_eq!(document["logs"], Value::from(Vec::<Value>::new()));
            assert_eq!(document["block_height"], Value::from(3));
            assert_eq!(document["block_hash"], value("6zgh2u9DqHHi"));
            assert_eq!(document.as_object().unwrap().len(), 4);
        }
        other => panic!("the error is a result: {:?}", other),
    }
    let unknown = || RpcQueryError::UnknownBlock {
        block_reference: BlockReference::BlockId(BlockId::Height(12)),
    };
    assert_eq!(
        wait().replied(Err(unknown())),
        RpcStep::Explain {
            error: unknown(),
            wait: AwaitExplanation {
                metrics_name: name(),
                error_data: value("DB Not Found Error: BLOCK HEIGHT: 12 \n Cause: Unknown"),
            },
        }
    );
    let other = || RpcQueryError::Other { info: value("no account") };
    assert_eq!(wait().replied(Err(other())), failed(HandlerError::Query(other())));
}

#[test]
fn explanations() {
    let wait = || AwaitExplanation { metrics_name: name(), error_data: value("text") };
    assert_eq!(
        wait().serialized(Ok(value("error"))),
        RpcStep::Done {
            metrics_name: name(),
            response: Err(RpcError::InternalOrHandlerError {
                error_data: Some(value("text")),
                error_struct: value("error"),
            }),
        }
    );
    let failure = SerializeError { display: "d".to_string(), debug: "D".to_string() };
    assert_eq!(
        wait().serialized(Err(failure)),
        RpcStep::Done {
            metrics_name: name(),
            response: Err(RpcError::InternalError {
                error_data: None,
                info: "Failed to serialize RpcQueryError: D".to_string(),
            }),
        }
    );
}

#[test]
fn adversarial_messages_are_spread() {
    assert_eq!(
        called(
            Method::Adversarial(AdversarialMethod::ProduceBlocks),
            Params::AdvProduceBlocks { num_blocks: 4, only_valid: true }
        ),
        RpcStep::Spread {
            message: NetworkAdversarialMessage::AdvProduceBlocks {
                num_blocks: 4,
                only_valid: true,
            },
            to_view_client: false,
            wait: AwaitSpread { metrics_name: name() },
        }
    );
    assert_eq!(
        called(
            Method::Adversarial(AdversarialMethod::SwitchToHeight),
            Params::AdvSwitchToHeight { height: 77 }
        ),
        RpcStep::Spread {
            message: NetworkAdversarialMessage::AdvSwitchToHeight { height: 77 },
            to_view_client: true,
            wait: AwaitSpread { metrics_name: name() },
        }
    );
    let wait = AwaitSpread { metrics_name: name() };
    assert_eq!(wait.spread(), RpcStep::Done { metrics_name: name(), response: Ok(value("")) });
}

#[test]
fn what_is_in_store() {
    let wait = || AwaitStore { metrics_name: name() };
    let server_error =
        || RpcStep::Done { metrics_name: name(), response: Err(RpcError::ServerError) };
    assert_eq!(
        wait().replied(Ok(Some(Value::from(3)))),
        serialized(RpcResponse::Stored { value: Value::from(3) })
    );
    assert_eq!(wait().replied(Ok(None)), server_error());
    assert_eq!(wait().replied(Err(MailboxError::Timeout)), server_error());
}

#[test]
fn sandbox_state_is_changed() {
    assert_eq!(
        begun(
            BasicMethod::SandboxPatchState,
            Params::SandboxPatchState { records: value("records") }
        ),
        RpcStep::AskSandbox {
            message: ClientMessage::Sandbox(SandboxMessage::PatchState {
                records: value("records"),
            }),
            wait: AwaitSandbox {
                metrics_name: name(),
                polling_config: polling_config(),
                task: SandboxTask::PatchState,
            },
        }
    );
    let poll = || SandboxPoll {
        metrics_name: name(),
        polling_config: polling_config(),
        task: SandboxTask::PatchState,
    };
    let begun = || AwaitSandbox {
        metrics_name: name(),
        polling_config: polling_config(),
        task: SandboxTask::PatchState,
    };
    let status = || ClientMessage::Sandbox(SandboxMessage::PatchStateStatus);
    assert_eq!(
        begun().replied(Ok(())),
        RpcStep::PollSandbox { message: status(), time_limit: Some(TIMEOUT), wait: poll() }
    );
    assert_eq!(begun().replied(Err(value("refused"))), node_error());
    for reply in [
        Ok(SandboxResponse::PatchStateFinished(false)),
        Ok(SandboxResponse::FastForwardFinished(true)),
        Ok(SandboxResponse::FastForwardFailed { error: "E".to_string() }),
        Ok(SandboxResponse::NoResponse),
        Err(MailboxError::Closed),
    ] {
        assert_eq!(
            poll().replied(reply),
            RpcStep::SleepSandbox { interval: INTERVAL, wait: poll() }
        );
    }
    assert_eq!(
        poll().slept(),
        RpcStep::PollSandbox { message: status(), time_limit: None, wait: poll() }
    );
    assert_eq!(
        poll().replied(Ok(SandboxResponse::PatchStateFinished(true))),
        serialized(RpcResponse::SandboxPatchState)
    );
}

#[test]
fn sandbox_chain_is_moved_forward() {
    assert_eq!(
        begun(
            BasicMethod::SandboxFastForward,
            Params::SandboxFastForward { delta_height: 1000 }
        ),
        RpcStep::AskSandbox {
            message: ClientMessage::Sandbox(SandboxMessage::FastForward { delta_height: 1000 }),
            wait: AwaitSandbox {
                metrics_name: name(),
                polling_config: polling_config(),
                task: SandboxTask::FastForward,
            },
        }
    );
    let poll = || SandboxPoll {
        metrics_name: name(),
        polling_config: polling_config(),
        task: SandboxTask::FastForward,
    };
    let begun = AwaitSandbox {
        metrics_name: name(),
        polling_config: polling_config(),
        task: SandboxTask::FastForward,
    };
    assert_eq!(
        begun.replied(Ok(())),
        RpcStep::PollSandbox {
            message: ClientMessage::Sandbox(SandboxMessage::FastForwardStatus),
            time_limit: Some(Duration::from_secs(3600)),
            wait: poll(),
        }
    );
    for reply in [
        Ok(SandboxResponse::FastForwardFinished(false)),
        Ok(SandboxResponse::PatchStateFinished(true)),
        Ok(SandboxResponse::NoResponse),
        Err(MailboxError::Timeout),
    ] {
        assert_eq!(
            poll().replied(reply),
            RpcStep::SleepSandbox { interval: INTERVAL, wait: poll() }
        );
    }
    assert_eq!(
        poll().replied(Ok(SandboxResponse::FastForwardFinished(true))),
        serialized(RpcResponse::SandboxFastForward)
    );
    assert_eq!(
        poll().replied(Ok(SandboxResponse::FastForwardFailed { error: "Stuck".to_string() })),
        failed(HandlerError::SandboxFastForward {
            error_message: "sandbox failed to fast forward due to: Stuck".to_string(),
        })
    );
    assert_eq!(
        poll().timed_out(),
        failed(HandlerError::SandboxFastForward {
            error_message: "sandbox failed to fast forward within reasonable time of an hour"
                .to_string(),
        })
    );
}

#[test]
fn responses_are_serialised() {
    let wait = AwaitSerialized { metrics_name: name() };
    assert_eq!(
        wait.serialized(Ok(value("document"))),
        RpcStep::Done { metrics_name: name(), response: Ok(value("document")) }
    );
    let failure = || SerializeError { display: "d".to_string(), debug: "D".to_string() };
    let wait = AwaitSerialized { metrics_name: name() };
    assert_eq!(
        wait.serialized(Err(failure())),
        RpcStep::Done {
            metrics_name: name(),
            response: Err(RpcError::SerializationError { message: "d".to_string() }),
        }
    );
    assert_eq!(serialize_response(Ok(value("document"))), Ok(value("document")));
    assert_eq!(
        serialize_response(Err(failure())),
        Err(RpcError::SerializationError { message: "d".to_string() })
    );
}

#[test]
fn changes_are_answered_after_four_events() {
    let call = MethodCall {
        method: "EXPERIMENTAL_changes".to_string(),
        params: value("unread"),
    };
    let wait = match handler().process_request_internal(call) {
        RpcStep::Parse { params, wait } => {
            assert_eq!(params, value("unread"));
            wait
        }
        other => panic!("the parameters are not read: {:?}", other),
    };
    let params = Params::Changes {
        block_reference: block_reference(),
        state_changes_request: value("accounts"),
    };
    let wait = match handler().process_method_call(wait, Ok(params)) {
        RpcStep::AskBlock { wait, .. } => wait,
        other => panic!("no block is asked for: {:?}", other),
    };
    let wait = match wait.replied(Ok(hash())) {
        RpcStep::AskViewClient { wait, .. } => wait,
        other => panic!("no changes are asked for: {:?}", other),
    };
    let wait = match wait.replied(Ok(value("changes"))) {
        RpcStep::Serialize { response, wait } => {
            assert_eq!(
                response,
                RpcResponse::Reply {
                    answer: Answer::Changes { block_hash: hash() },
                    value: value("changes"),
                }
            );
            wait
        }
        other => panic!("the response is not serialised: {:?}", other),
    };
    assert_eq!(
        wait.serialized(Ok(value("document"))),
        RpcStep::Done {
            metrics_name: "EXPERIMENTAL_changes".to_string(),
            response: Ok(value("document")),
        }
    );
}

#[test]
fn questions_are_only_asked() {
    let questions = [
        begun(BasicMethod::Status, Params::Empty),
        begun(BasicMethod::Block, Params::Block { block_reference: block_reference() }),
        begun(BasicMethod::ExperimentalReceipt, Params::Receipt { receipt_id: hash() }),
        begun(BasicMethod::ExperimentalGenesisConfig, Params::Empty),
    ];
    for step in questions {
        assert!(!matches!(
            step,
            RpcStep::Tell { .. }
                | RpcStep::Transaction { .. }
                | RpcStep::Spread { .. }
                | RpcStep::AskSandbox { .. }
        ));
    }
    match begun(BasicMethod::Tx, status_params()) {
        RpcStep::Transaction { step, .. } => {
            assert!(matches!(step, unc_jsonrpc::transactions::TxStep::AskStatus { .. }))
        }
        other => panic!("no conversation: {:?}", other),
    }
}
