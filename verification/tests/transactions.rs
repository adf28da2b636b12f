use serde_json::Value;
use std::time::Duration;
use unc_jsonrpc::config::RpcPollingConfig;
use unc_jsonrpc::handler::{Features, JsonRpcHandler};
use unc_jsonrpc::metrics::Metric;
use unc_jsonrpc::primitives::{
    CryptoHash, InvalidTxError, ProcessTxResponse, RpcTransactionError, SignedTransaction,
    TxExecutionStatus,
};
use unc_jsonrpc::transactions::{
    ExistsCheck, ProcessTxRequest, RpcSendTransactionRequest, RpcTransactionResponse,
    RpcTransactionStatusRequest, StatusPoll, Submission, TransactionInfo, TxStatus, TxStatusView,
    TxStep,
};

const INTERVAL: Duration = Duration::from_millis(250);
const TIMEOUT: Duration = Duration::from_secs(3);

fn handler() -> JsonRpcHandler {
    JsonRpcHandler {
        polling_config: RpcPollingConfig { polling_interval: INTERVAL, polling_timeout: TIMEOUT },
        enable_debug_rpc: false,
        debug_pages_src_path: None,
        features: Features { sandbox: false, test_features: false },
    }
}

fn hash() -> CryptoHash {
    CryptoHash { base58: "6zgh2u9DqHHi".to_string() }
}

fn transaction() -> SignedTransaction {
    SignedTransaction {
        hash: hash(),
        signer_id: "alice".to_string(),
        encoded: "DgAAAHNlbmRlci50".to_string(),
    }
}

fn send_request(wait_until: TxExecutionStatus) -> RpcSendTransactionRequest {
    RpcSendTransactionRequest { signed_transaction: transaction(), wait_until }
}

fn status_request(wait_until: TxExecutionStatus) -> RpcTransactionStatusRequest {
    RpcTransactionStatusRequest {
        transaction_info: TransactionInfo::Transaction(transaction()),
        wait_until,
    }
}

fn id_request(wait_until: TxExecutionStatus) -> RpcTransactionStatusRequest {
    RpcTransactionStatusRequest {
        transaction_info: TransactionInfo::TransactionId {
            tx_hash: hash(),
            sender_account_id: "alice".to_string(),
        },
        wait_until,
    }
}

fn question(fetch_receipt: bool) -> TxStatus {
    TxStatus { tx_hash: hash(), signer_account_id: "alice".to_string(), fetch_receipt }
}

fn handed_over(check_only: bool) -> ProcessTxRequest {
    ProcessTxRequest { transaction: transaction(), is_forwarded: false, check_only }
}

fn view(outcome: Option<&str>, status: TxExecutionStatus) -> TxStatusView {
    TxStatusView { execution_outcome: outcome.map(Value::from), status }
}

fn nonce_refusal() -> ProcessTxResponse {
    ProcessTxResponse::InvalidTx(InvalidTxError::InvalidNonce { info: Value::from(7) })
}

fn unknown() -> RpcTransactionError {
    RpcTransactionError::UnknownTransaction { requested_transaction_hash: hash() }
}

fn done(result: Result<RpcTransactionResponse, RpcTransactionError>) -> TxStep {
    TxStep::Done { result }
}

fn success(outcome: Option<&str>, status: TxExecutionStatus) -> TxStep {
    done(Ok(RpcTransactionResponse {
        final_execution_outcome: outcome.map(Value::from),
        final_execution_status: status,
    }))
}

fn submission(step: TxStep, check_only: bool) -> Submission {
    match step {
        TxStep::Submit { message, wait } => {
            assert_eq!(message, handed_over(check_only));
            wait
        }
        other => panic!("no submission: {:?}", other),
    }
}

fn exists_check(step: TxStep, limit: Option<Duration>) -> ExistsCheck {
    match step {
        TxStep::AskExists { message, time_limit, wait } => {
            assert_eq!(message, question(false));
            assert_eq!(time_limit, limit);
            wait
        }
        other => panic!("no question whether it exists: {:?}", other),
    }
}

fn exists_sleep(step: TxStep) -> ExistsCheck {
    match step {
        TxStep::SleepExists { interval, wait } => {
            assert_eq!(interval, INTERVAL);
            wait
        }
        other => panic!("no sleep: {:?}", other),
    }
}

fn status_poll(step: TxStep, fetch_receipt: bool, limit: Option<Duration>) -> StatusPoll {
    match step {
        TxStep::AskStatus { message, time_limit, wait } => {
            assert_eq!(message, question(fetch_receipt));
            assert_eq!(time_limit, limit);
            wait
        }
        other => panic!("no question for the status: {:?}", other),
    }
}

fn status_sleep(step: TxStep) -> StatusPoll {
    match step {
        TxStep::SleepStatus { interval, wait } => {
            assert_eq!(interval, INTERVAL);
            wait
        }
        other => panic!("no sleep: {:?}", other),
    }
}

#[test]
fn sending_without_waiting() {
    let (message, known_by) = handler().send_tx_async(send_request(TxExecutionStatus::Final));
    assert_eq!(message, handed_over(false));
    assert_eq!(known_by, hash());
}

#[test]
fn waiting_for_nothing_only_tells() {
    assert_eq!(
        handler().send_tx(send_request(TxExecutionStatus::Pending)),
        TxStep::Tell {
            message: handed_over(false),
            response: RpcTransactionResponse {
                final_execution_outcome: None,
                final_execution_status: TxExecutionStatus::Pending,
            },
        }
    );
}

#[test]
fn valid_transaction_is_waited_for() {
    let wait = submission(handler().send_tx(send_request(TxExecutionStatus::Stage(1))), false);
    assert!(!wait.is_within_status_limit());
    let poll = status_poll(wait.replied(Ok(ProcessTxResponse::ValidTx)), false, Some(TIMEOUT));
    let poll = status_sleep(poll.replied(Ok(view(None, TxExecutionStatus::Stage(0)))));
    let poll = status_poll(poll.slept(), false, None);
    assert_eq!(
        poll.replied(Ok(view(Some("outcome"), TxExecutionStatus::Stage(2)))),
        success(Some("outcome"), TxExecutionStatus::Stage(2))
    );
}

#[test]
fn routed_transaction_is_waited_for() {
    let wait = submission(handler().send_tx(send_request(TxExecutionStatus::Final)), false);
    status_poll(wait.replied(Ok(ProcessTxResponse::RequestRouted)), false, Some(TIMEOUT));
}

#[test]
fn refusals_are_reported() {
    let invalid = || InvalidTxError::Other { info: Value::from("expired") };
    let refusals = [
        (
            ProcessTxResponse::InvalidTx(invalid()),
            RpcTransactionError::InvalidTransaction { context: invalid() },
        ),
        (ProcessTxResponse::NoResponse, RpcTransactionError::TimeoutError),
        (ProcessTxResponse::DoesNotTrackShard, RpcTransactionError::DoesNotTrackShard),
        (
            ProcessTxResponse::Other { debug: "Busy".to_string() },
            RpcTransactionError::InternalError { debug_info: "Busy".to_string() },
        ),
    ];
    for (response, error) in refusals {
        let wait = submission(handler().send_tx(send_request(TxExecutionStatus::Final)), false);
        assert_eq!(wait.replied(Ok(response)), done(Err(error)));
    }
}

#[test]
fn lost_message_is_reported() {
    let error = || RpcTransactionError::InternalError { debug_info: "closed".to_string() };
    let wait = submission(handler().send_tx(send_request(TxExecutionStatus::Final)), false);
    assert_eq!(wait.replied(Err(error())), done(Err(error())));
}

#[test]
fn commit_waits_for_the_end() {
    let step = handler().send_tx_commit(send_request(TxExecutionStatus::Pending));
    let wait = submission(step, false);
    let poll = status_poll(wait.replied(Ok(ProcessTxResponse::ValidTx)), false, Some(TIMEOUT));
    let poll = status_sleep(poll.replied(Ok(view(Some("early"), TxExecutionStatus::Stage(255)))));
    let poll = status_poll(poll.slept(), false, None);
    assert_eq!(
        poll.replied(Ok(view(Some("outcome"), TxExecutionStatus::Final))),
        success(Some("outcome"), TxExecutionStatus::Final)
    );
}

#[test]
fn sending_again_goes_on_as_if_valid() {
    let first = submission(handler().send_tx(send_request(TxExecutionStatus::Final)), false);
    let again = submission(handler().send_tx(send_request(TxExecutionStatus::Final)), false);
    let check = exists_check(again.replied(Ok(nonce_refusal())), Some(TIMEOUT));
    let check = exists_sleep(check.replied(Ok(view(None, TxExecutionStatus::Pending))));
    let check = exists_check(check.slept(), None);
    let check = exists_sleep(check.replied(Err(RpcTransactionError::TimeoutError)));
    let check = exists_check(check.slept(), None);
    assert_eq!(
        check.replied(Ok(view(Some("outcome"), TxExecutionStatus::Stage(0)))),
        first.replied(Ok(ProcessTxResponse::ValidTx))
    );
}

#[test]
fn used_nonce_is_refused() {
    let wait = submission(handler().send_tx(send_request(TxExecutionStatus::Final)), false);
    let check = exists_check(wait.replied(Ok(nonce_refusal())), Some(TIMEOUT));
    assert!(!check.is_within_status_limit());
    assert_eq!(
        check.replied(Err(unknown())),
        done(Err(RpcTransactionError::InvalidTransaction {
            context: InvalidTxError::InvalidNonce { info: Value::from(7) },
        }))
    );
}

#[test]
fn looking_for_a_transaction_can_time_out() {
    let wait = submission(handler().send_tx(send_request(TxExecutionStatus::Final)), false);
    let check = exists_check(wait.replied(Ok(nonce_refusal())), Some(TIMEOUT));
    assert_eq!(
        check.timed_out(),
        (done(Err(RpcTransactionError::TimeoutError)), Metric::RpcTimeoutTotal)
    );
}

#[test]
fn status_at_once() {
    let step = handler().tx_status_common(status_request(TxExecutionStatus::Pending), true);
    let poll = status_poll(step, true, Some(TIMEOUT));
    assert_eq!(
        poll.replied(Ok(view(None, TxExecutionStatus::Pending))),
        success(None, TxExecutionStatus::Pending)
    );
}

#[test]
fn unknown_transaction_is_checked() {
    let step = handler().tx_status_common(status_request(TxExecutionStatus::Final), false);
    let poll = status_poll(step, false, Some(TIMEOUT));
    let wait = submission(poll.replied(Err(unknown())), true);
    assert!(wait.is_within_status_limit());
    let poll = status_sleep(wait.replied(Ok(ProcessTxResponse::ValidTx)));
    let poll = status_poll(poll.slept(), false, None);
    let wait = submission(poll.replied(Err(unknown())), true);
    let context = || InvalidTxError::Other { info: Value::from("expired") };
    assert_eq!(
        wait.replied(Ok(ProcessTxResponse::InvalidTx(context()))),
        done(Err(RpcTransactionError::InvalidTransaction { context: context() }))
    );
}

#[test]
fn check_ignores_what_is_no_refusal() {
    for response in [
        ProcessTxResponse::NoResponse,
        ProcessTxResponse::DoesNotTrackShard,
        ProcessTxResponse::RequestRouted,
        ProcessTxResponse::Other { debug: "Busy".to_string() },
    ] {
        let step = handler().tx_status_common(status_request(TxExecutionStatus::Final), false);
        let poll = status_poll(step, false, Some(TIMEOUT));
        let wait = submission(poll.replied(Err(unknown())), true);
        status_sleep(wait.replied(Ok(response)));
    }
    let step = handler().tx_status_common(status_request(TxExecutionStatus::Final), false);
    let poll = status_poll(step, false, Some(TIMEOUT));
    let wait = submission(poll.replied(Err(unknown())), true);
    status_sleep(wait.replied(Err(RpcTransactionError::TimeoutError)));
}

#[test]
fn check_with_used_nonce() {
    let step = handler().tx_status_common(status_request(TxExecutionStatus::Final), false);
    let poll = status_poll(step, false, Some(TIMEOUT));
    let wait = submission(poll.replied(Err(unknown())), true);
    let check = exists_check(wait.replied(Ok(nonce_refusal())), Some(TIMEOUT));
    assert!(check.is_within_status_limit());
    let poll = status_sleep(check.replied(Ok(view(Some("outcome"), TxExecutionStatus::Final))));
    assert_eq!(poll.last_error, Some(unknown()));
}

#[test]
fn check_whose_look_times_out_goes_on() {
    let step = handler().tx_status_common(status_request(TxExecutionStatus::Final), false);
    let poll = status_poll(step, false, Some(TIMEOUT));
    let wait = submission(poll.replied(Err(unknown())), true);
    let check = exists_check(wait.replied(Ok(nonce_refusal())), Some(TIMEOUT));
    let (step, metric) = check.timed_out();
    assert_eq!(metric, Metric::RpcTimeoutTotal);
    status_sleep(step);
}

#[test]
fn unknown_transaction_where_nothing_is_waited_for() {
    let step = handler().tx_status_common(status_request(TxExecutionStatus::Pending), false);
    let poll = status_poll(step, false, Some(TIMEOUT));
    let wait = submission(poll.replied(Err(unknown())), true);
    assert_eq!(wait.replied(Ok(ProcessTxResponse::ValidTx)), done(Err(unknown())));
}

#[test]
fn transaction_that_is_known_by_hash_only() {
    let step = handler().tx_status_common(id_request(TxExecutionStatus::Final), false);
    let poll = status_poll(step, false, Some(TIMEOUT));
    let poll = status_sleep(poll.replied(Err(unknown())));
    assert_eq!(poll.timed_out(), (done(Err(unknown())), Metric::RpcTimeoutTotal));

    let step = handler().tx_status_common(id_request(TxExecutionStatus::Pending), false);
    let poll = status_poll(step, false, Some(TIMEOUT));
    assert_eq!(poll.replied(Err(unknown())), done(Err(unknown())));
}

#[test]
fn other_error_ends_the_wait() {
    let step = handler().tx_status_common(status_request(TxExecutionStatus::Final), false);
    let poll = status_poll(step, false, Some(TIMEOUT));
    assert_eq!(
        poll.replied(Err(RpcTransactionError::DoesNotTrackShard)),
        done(Err(RpcTransactionError::DoesNotTrackShard))
    );
}

#[test]
fn waiting_can_time_out() {
    let step = handler().tx_status_common(status_request(TxExecutionStatus::Final), false);
    let poll = status_poll(step, false, Some(TIMEOUT));
    assert_eq!(
        poll.timed_out(),
        (done(Err(RpcTransactionError::TimeoutError)), Metric::RpcTimeoutTotal)
    );
}

#[test]
fn timeout_tells_the_last_error() {
    let step = handler().tx_status_common(status_request(TxExecutionStatus::Final), false);
    let poll = status_poll(step, false, Some(TIMEOUT));
    let wait = submission(poll.replied(Err(unknown())), true);
    assert_eq!(wait.status_timed_out(), (done(Err(unknown())), Metric::RpcTimeoutTotal));
}

#[test]
fn timeout_forgets_an_error_that_is_over() {
    let step = handler().tx_status_common(id_request(TxExecutionStatus::Final), false);
    let poll = status_poll(step, false, Some(TIMEOUT));
    let poll = status_sleep(poll.replied(Err(unknown())));
    let poll = status_poll(poll.slept(), false, None);
    let poll = status_sleep(poll.replied(Ok(view(None, TxExecutionStatus::Stage(3)))));
    assert_eq!(
        poll.timed_out(),
        (done(Err(RpcTransactionError::TimeoutError)), Metric::RpcTimeoutTotal)
    );
}

#[test]
fn timeout_while_looking() {
    let step = handler().tx_status_common(status_request(TxExecutionStatus::Final), false);
    let poll = status_poll(step, false, Some(TIMEOUT));
    let wait = submission(poll.replied(Err(unknown())), true);
    let check = exists_check(wait.replied(Ok(nonce_refusal())), Some(TIMEOUT));
    assert_eq!(check.status_timed_out(), (done(Err(unknown())), Metric::RpcTimeoutTotal));
}

#[test]
fn what_a_transaction_is_found_by() {
    let whole = TransactionInfo::from_signed_tx(transaction());
    assert_eq!(whole.to_tx_hash_and_account(), (hash(), "alice".to_string()));
    assert_eq!(whole.to_signed_tx(), Some(&transaction()));
    let id = TransactionInfo::TransactionId {
        tx_hash: hash(),
        sender_account_id: "bob".to_string(),
    };
    assert_eq!(id.to_tx_hash_and_account(), (hash(), "bob".to_string()));
    assert_eq!(id.to_signed_tx(), None);
}

#[test]
fn stages_are_ordered() {
    let stages = [
        TxExecutionStatus::Pending,
        TxExecutionStatus::Stage(0),
        TxExecutionStatus::Stage(1),
        TxExecutionStatus::Stage(255),
        TxExecutionStatus::Final,
    ];
    for (i, stage) in stages.iter().enumerate() {
        for (j, wanted) in stages.iter().enumerate() {
            assert_eq!(stage.reaches(wanted), i >= j);
        }
        assert_eq!(stage.is_pending(), i == 0);
    }
}

#[test]
fn responses_as_errors() {
    assert_eq!(
        RpcTransactionError::from_network_client_responses(ProcessTxResponse::RequestRouted),
        RpcTransactionError::DoesNotTrackShard
    );
    assert_eq!(
        RpcTransactionError::from_network_client_responses(ProcessTxResponse::ValidTx),
        RpcTransactionError::InternalError { debug_info: "ValidTx".to_string() }
    );
    assert_eq!(
        RpcTransactionError::from_network_client_responses(nonce_refusal()),
        RpcTransactionError::InvalidTransaction {
            context: InvalidTxError::InvalidNonce { info: Value::from(7) },
        }
    );
}
