//! Requests about transactions.
//!
//! Sending a transaction and waiting for its status is a conversation with the node: a
//! message goes out, a reply or the end of a time limit comes back, and that decides on
//! the next message. A [`TxStep`] says what to do next. What it waits for is one of the
//! states [`Submission`], [`ExistsCheck`] and [`StatusPoll`], which turn what came back
//! into the next step.
use crate::config::RpcPollingConfig;
use crate::handler::JsonRpcHandler;
use crate::metrics::Metric;
use crate::primitives::{
    AccountId, CryptoHash, InvalidTxError, ProcessTxResponse, RpcTransactionError,
    SignedTransaction, TxExecutionStatus,
};
use serde_json::Value;
use std::time::Duration;
use vstd::prelude::*;

verus! {

/// A transaction, and how far it must have come before the request is answered.
#[derive(Debug, PartialEq, Eq)]
pub struct RpcSendTransactionRequest {
    pub signed_transaction: SignedTransaction,
    pub wait_until: TxExecutionStatus,
}

/// A transaction that is asked about: the transaction itself, or what it is found by.
#[derive(Debug, PartialEq, Eq)]
pub enum TransactionInfo {
    Transaction(SignedTransaction),
    TransactionId { tx_hash: CryptoHash, sender_account_id: AccountId },
}

/// A transaction that is asked about, and how far it must have come before the request is
/// answered.
#[derive(Debug, PartialEq, Eq)]
pub struct RpcTransactionStatusRequest {
    pub transaction_info: TransactionInfo,
    pub wait_until: TxExecutionStatus,
}

/// The answer to a request about a transaction.
#[derive(Debug, PartialEq, Eq)]
pub struct RpcTransactionResponse {
    pub final_execution_outcome: Option<Value>,
    pub final_execution_status: TxExecutionStatus,
}

/// The message that hands a transaction to the client.
#[derive(Debug, PartialEq, Eq)]
pub struct ProcessTxRequest {
    pub transaction: SignedTransaction,
    pub is_forwarded: bool,
    /// If true, the transaction is looked at and not sent.
    pub check_only: bool,
}

/// The message that asks the view client about a transaction.
#[derive(Debug, PartialEq, Eq)]
pub struct TxStatus {
    pub tx_hash: CryptoHash,
    pub signer_account_id: AccountId,
    pub fetch_receipt: bool,
}

/// What the view client knows of a transaction.
#[derive(Debug, PartialEq, Eq)]
pub struct TxStatusView {
    pub execution_outcome: Option<Value>,
    pub status: TxExecutionStatus,
}

impl TransactionInfo {
    /// The hash of the transaction.
    pub open spec fn tx_hash(self) -> CryptoHash {
        match self {
            TransactionInfo::Transaction(tx) => tx.hash,
            TransactionInfo::TransactionId { tx_hash, .. } => tx_hash,
        }
    }

    /// The account that signed the transaction.
    pub open spec fn account(self) -> AccountId {
        match self {
            TransactionInfo::Transaction(tx) => tx.signer_id,
            TransactionInfo::TransactionId { sender_account_id, .. } => sender_account_id,
        }
    }

    /// What the transaction is found by.
    pub fn to_tx_hash_and_account(&self) -> (id: (CryptoHash, AccountId))
        ensures
            id == (self.tx_hash(), self.account()),
    {
        match self {
            TransactionInfo::Transaction(tx) => (tx.hash.clone(), tx.signer_id.clone()),
            TransactionInfo::TransactionId { tx_hash, sender_account_id } => (
                tx_hash.clone(),
                sender_account_id.clone(),
            ),
        }
    }

    /// The transaction itself, where it is known.
    pub fn to_signed_tx(&self) -> (tx: Option<&SignedTransaction>)
        ensures
            match self {
                TransactionInfo::Transaction(known) => tx == Some(known),
                _ => tx is None,
            },
    {
        match self {
            TransactionInfo::Transaction(tx) => Some(tx),
            _ => None,
        }
    }

    /// A transaction that is known.
    pub fn from_signed_tx(tx: SignedTransaction) -> (info: Self)
        ensures
            info == TransactionInfo::Transaction(tx),
    {
        TransactionInfo::Transaction(tx)
    }
}

/// Waiting until a transaction has come far enough.
#[derive(Debug, PartialEq, Eq)]
pub struct StatusPoll {
    pub polling_config: RpcPollingConfig,
    pub tx_info: TransactionInfo,
    pub finality: TxExecutionStatus,
    pub fetch_receipt: bool,
    /// The error that the last reply about the status was, if it was one.
    pub last_error: Option<RpcTransactionError>,
}

/// What a transaction is handed to the client for.
#[derive(Debug, PartialEq, Eq)]
pub enum Purpose {
    /// To be sent, and then to be waited for.
    Send {
        polling_config: RpcPollingConfig,
        transaction: SignedTransaction,
        wait_until: TxExecutionStatus,
    },
    /// To be looked at, while it is waited for.
    Check { poll: StatusPoll },
}

/// Waiting for what the client says of a transaction.
#[derive(Debug, PartialEq, Eq)]
pub struct Submission {
    pub tx_hash: CryptoHash,
    pub signer_account_id: AccountId,
    pub purpose: Purpose,
}

/// Finding out whether a transaction that was refused for its nonce is on the chain already.
#[derive(Debug, PartialEq, Eq)]
pub struct ExistsCheck {
    pub submission: Submission,
    /// The refusal.
    pub response: ProcessTxResponse,
}

/// What a conversation about a transaction does next.
#[derive(Debug, PartialEq, Eq)]
#[allow(inconsistent_fields)]
pub enum TxStep {
    /// Hand the message to the client and do not wait for a reply. Then the answer is `response`.
    Tell { message: ProcessTxRequest, response: RpcTransactionResponse },
    /// Send the message to the client and wait for its reply.
    Submit { message: ProcessTxRequest, wait: Submission },
    /// Ask the view client whether the transaction exists. If `time_limit` is given, the
    /// time limit on finding that out begins.
    AskExists { message: TxStatus, time_limit: Option<Duration>, wait: ExistsCheck },
    /// Sleep before asking again whether the transaction exists.
    SleepExists { interval: Duration, wait: ExistsCheck },
    /// Ask the view client for the status. If `time_limit` is given, the time limit on
    /// waiting for the status begins.
    AskStatus { message: TxStatus, time_limit: Option<Duration>, wait: StatusPoll },
    /// Sleep before asking again for the status.
    SleepStatus { interval: Duration, wait: StatusPoll },
    /// The request is answered.
    Done { result: Result<RpcTransactionResponse, RpcTransactionError> },
}

impl Purpose {
    pub open spec fn polling_config(self) -> RpcPollingConfig {
        match self {
            Purpose::Send { polling_config, .. } => polling_config,
            Purpose::Check { poll } => poll.polling_config,
        }
    }
}

// The conversation as a function of what comes back.

/// Asks for the status.
pub open spec fn ask_status(poll: StatusPoll, time_limit: Option<Duration>) -> TxStep {
    TxStep::AskStatus {
        message: TxStatus {
            tx_hash: poll.tx_info.tx_hash(),
            signer_account_id: poll.tx_info.account(),
            fetch_receipt: poll.fetch_receipt,
        },
        time_limit,
        wait: poll,
    }
}

/// Sleeps before asking for the status again.
pub open spec fn sleep_status(poll: StatusPoll) -> TxStep {
    TxStep::SleepStatus { interval: poll.polling_config.polling_interval, wait: poll }
}

/// Waits for the status from the start.
pub open spec fn wait_for_status(
    polling_config: RpcPollingConfig,
    tx_info: TransactionInfo,
    finality: TxExecutionStatus,
    fetch_receipt: bool,
) -> TxStep {
    ask_status(
        StatusPoll { polling_config, tx_info, finality, fetch_receipt, last_error: None },
        Some(polling_config.polling_timeout),
    )
}

/// Hands a transaction to the client.
pub open spec fn hand_over(transaction: SignedTransaction, purpose: Purpose) -> TxStep {
    TxStep::Submit {
        message: ProcessTxRequest {
            transaction,
            is_forwarded: false,
            check_only: purpose is Check,
        },
        wait: Submission {
            tx_hash: transaction.hash,
            signer_account_id: transaction.signer_id,
            purpose,
        },
    }
}

/// Asks whether a transaction exists.
pub open spec fn ask_exists(check: ExistsCheck, time_limit: Option<Duration>) -> TxStep {
    TxStep::AskExists {
        message: TxStatus {
            tx_hash: check.submission.tx_hash,
            signer_account_id: check.submission.signer_account_id,
            fetch_receipt: false,
        },
        time_limit,
        wait: check,
    }
}

/// The answer where waiting for the status ends without it: the last error, and a timeout
/// where the last reply was none.
pub open spec fn give_up(poll: StatusPoll) -> TxStep {
    TxStep::Done {
        result: Err(
            match poll.last_error {
                Some(error) => error,
                None => RpcTransactionError::TimeoutError,
            },
        ),
    }
}

/// Goes on waiting for a transaction that is not known yet, unless nothing is waited for.
pub open spec fn go_on_unknown(poll: StatusPoll) -> TxStep {
    if poll.finality is Pending {
        give_up(poll)
    } else {
        sleep_status(poll)
    }
}

/// What follows once it is settled what the client says of a transaction.
pub open spec fn after_word(
    purpose: Purpose,
    word: Result<ProcessTxResponse, RpcTransactionError>,
) -> TxStep {
    match purpose {
        Purpose::Send { polling_config, transaction, wait_until } => match word {
            Err(error) => TxStep::Done { result: Err(error) },
            Ok(ProcessTxResponse::ValidTx) => wait_for_status(
                polling_config,
                TransactionInfo::Transaction(transaction),
                wait_until,
                false,
            ),
            Ok(ProcessTxResponse::RequestRouted) => wait_for_status(
                polling_config,
                TransactionInfo::Transaction(transaction),
                wait_until,
                false,
            ),
            Ok(ProcessTxResponse::InvalidTx(context)) => TxStep::Done {
                result: Err(RpcTransactionError::InvalidTransaction { context }),
            },
            Ok(ProcessTxResponse::NoResponse) => TxStep::Done {
                result: Err(RpcTransactionError::TimeoutError),
            },
            Ok(ProcessTxResponse::DoesNotTrackShard) => TxStep::Done {
                result: Err(RpcTransactionError::DoesNotTrackShard),
            },
            Ok(ProcessTxResponse::Other { debug }) => TxStep::Done {
                result: Err(RpcTransactionError::InternalError { debug_info: debug }),
            },
        },
        Purpose::Check { poll } => match word {
            Ok(ProcessTxResponse::InvalidTx(context)) => TxStep::Done {
                result: Err(RpcTransactionError::InvalidTransaction { context }),
            },
            _ => go_on_unknown(poll),
        },
    }
}

/// What follows on the client's reply. A refusal for the nonce may mean that the transaction
/// was sent before.
pub open spec fn after_reply(
    wait: Submission,
    reply: Result<ProcessTxResponse, RpcTransactionError>,
) -> TxStep {
    match reply {
        Ok(ProcessTxResponse::InvalidTx(InvalidTxError::InvalidNonce { info })) => ask_exists(
            ExistsCheck {
                submission: wait,
                response: ProcessTxResponse::InvalidTx(InvalidTxError::InvalidNonce { info }),
            },
            Some(wait.purpose.polling_config().polling_timeout),
        ),
        _ => after_word(wait.purpose, reply),
    }
}

/// What follows on the view client's reply on whether a transaction exists.
pub open spec fn after_exists(
    wait: ExistsCheck,
    reply: Result<TxStatusView, RpcTransactionError>,
) -> TxStep {
    match reply {
        Ok(TxStatusView { execution_outcome: Some(_), .. }) => after_word(
            wait.submission.purpose,
            Ok(ProcessTxResponse::ValidTx),
        ),
        Err(RpcTransactionError::UnknownTransaction { .. }) => after_word(
            wait.submission.purpose,
            Ok(wait.response),
        ),
        _ => TxStep::SleepExists {
            interval: wait.submission.purpose.polling_config().polling_interval,
            wait,
        },
    }
}

/// What follows on the view client's reply on the status.
pub open spec fn after_status(
    wait: StatusPoll,
    reply: Result<TxStatusView, RpcTransactionError>,
) -> TxStep {
    match reply {
        Ok(view) => if view.status.rank() >= wait.finality.rank() {
            TxStep::Done {
                result: Ok(
                    RpcTransactionResponse {
                        final_execution_outcome: view.execution_outcome,
                        final_execution_status: view.status,
                    },
                ),
            }
        } else {
            sleep_status(StatusPoll { last_error: None, ..wait })
        },
        Err(RpcTransactionError::UnknownTransaction { requested_transaction_hash }) => {
            let poll = StatusPoll {
                last_error: Some(
                    RpcTransactionError::UnknownTransaction { requested_transaction_hash },
                ),
                ..wait
            };
            match wait.tx_info {
                TransactionInfo::Transaction(transaction) => hand_over(
                    transaction,
                    Purpose::Check { poll },
                ),
                _ => go_on_unknown(poll),
            }
        },
        Err(error) => TxStep::Done { result: Err(error) },
    }
}

// The conversation, carried out.

impl StatusPoll {
    fn ask(self, time_limit: Option<Duration>) -> (step: TxStep)
        ensures
            step == ask_status(self, time_limit),
    {
        let (tx_hash, signer_account_id) = self.tx_info.to_tx_hash_and_account();
        TxStep::AskStatus {
            message: TxStatus {
                tx_hash,
                signer_account_id,
                fetch_receipt: self.fetch_receipt,
            },
            time_limit,
            wait: self,
        }
    }

    fn sleep(self) -> (step: TxStep)
        ensures
            step == sleep_status(self),
    {
        TxStep::SleepStatus { interval: self.polling_config.polling_interval, wait: self }
    }

    fn go_on_unknown(self) -> (step: TxStep)
        ensures
            step == go_on_unknown(self),
    {
        if self.finality.is_pending() {
            self.give_up()
        } else {
            self.sleep()
        }
    }

    /// The view client has replied on the status.
    pub fn replied(self, reply: Result<TxStatusView, RpcTransactionError>) -> (step: TxStep)
        ensures
            step == after_status(self, reply),
    {
        match reply {
            Ok(view) => {
                if view.status.reaches(&self.finality) {
                    TxStep::Done {
                        result: Ok(
                            RpcTransactionResponse {
                                final_execution_outcome: view.execution_outcome,
                                final_execution_status: view.status,
                            },
                        ),
                    }
                } else {
                    let poll = StatusPoll { last_error: None, ..self };
                    poll.sleep()
                }
            },
            Err(RpcTransactionError::UnknownTransaction { requested_transaction_hash }) => {
                let poll = StatusPoll {
                    last_error: Some(
                        RpcTransactionError::UnknownTransaction { requested_transaction_hash },
                    ),
                    ..self
                };
                let known: Option<SignedTransaction> = match poll.tx_info.to_signed_tx() {
                    Some(tx) => Some(tx.clone()),
                    None => None,
                };
                match known {
                    Some(tx) => send_tx_internal(tx, Purpose::Check { poll }),
                    None => poll.go_on_unknown(),
                }
            },
            Err(error) => TxStep::Done { result: Err(error) },
        }
    }

    /// The sleep is over.
    pub fn slept(self) -> (step: TxStep)
        ensures
            step == ask_status(self, None),
    {
        self.ask(None)
    }

    /// The time limit on waiting for the status is reached.
    pub fn timed_out(self) -> (end: (TxStep, Metric))
        ensures
            end == (give_up(self), Metric::RpcTimeoutTotal),
    {
        (self.give_up(), Metric::RpcTimeoutTotal)
    }

    fn give_up(self) -> (step: TxStep)
        ensures
            step == give_up(self),
    {
        TxStep::Done {
            result: Err(
                match self.last_error {
                    Some(error) => error,
                    None => RpcTransactionError::TimeoutError,
                },
            ),
        }
    }
}

/// Hands a transaction to the client.
fn send_tx_internal(tx: SignedTransaction, purpose: Purpose) -> (step: TxStep)
    ensures
        step == hand_over(tx, purpose),
{
    let tx_hash = tx.get_hash();
    let signer_account_id = tx.signer_id.clone();
    let check_only: bool = match &purpose {
        Purpose::Check { .. } => true,
        Purpose::Send { .. } => false,
    };
    TxStep::Submit {
        message: ProcessTxRequest { transaction: tx, is_forwarded: false, check_only },
        wait: Submission { tx_hash, signer_account_id, purpose },
    }
}

impl Purpose {
    fn config(&self) -> (config: RpcPollingConfig)
        ensures
            config == self.polling_config(),
    {
        match self {
            Purpose::Send { polling_config, .. } => *polling_config,
            Purpose::Check { poll } => poll.polling_config,
        }
    }

    fn settled(self, word: Result<ProcessTxResponse, RpcTransactionError>) -> (step: TxStep)
        ensures
            step == after_word(self, word),
    {
        match self {
            Purpose::Send { polling_config, transaction, wait_until } => match word {
                Err(error) => TxStep::Done { result: Err(error) },
                Ok(ProcessTxResponse::ValidTx) | Ok(ProcessTxResponse::RequestRouted) => {
                    tx_status_fetch(
                        polling_config,
                        TransactionInfo::from_signed_tx(transaction),
                        wait_until,
                        false,
                    )
                },
                Ok(response) => TxStep::Done {
                    result: Err(RpcTransactionError::from_network_client_responses(response)),
                },
            },
            Purpose::Check { poll } => match word {
                Ok(ProcessTxResponse::InvalidTx(context)) => TxStep::Done {
                    result: Err(RpcTransactionError::InvalidTransaction { context }),
                },
                _ => poll.go_on_unknown(),
            },
        }
    }
}

impl Submission {
    /// The client has replied.
    pub fn replied(self, reply: Result<ProcessTxResponse, RpcTransactionError>) -> (step: TxStep)
        ensures
            step == after_reply(self, reply),
    {
        match reply {
            Ok(ProcessTxResponse::InvalidTx(InvalidTxError::InvalidNonce { info })) => {
                let time_limit: Duration = self.purpose.config().polling_timeout;
                let check = ExistsCheck {
                    submission: self,
                    response: ProcessTxResponse::InvalidTx(InvalidTxError::InvalidNonce { info }),
                };
                check.ask(Some(time_limit))
            },
            _ => self.purpose.settled(reply),
        }
    }

    /// Whether the time limit on waiting for the status runs meanwhile.
    pub fn is_within_status_limit(&self) -> (within: bool)
        ensures
            within == (self.purpose is Check),
    {
        match &self.purpose {
            Purpose::Check { .. } => true,
            Purpose::Send { .. } => false,
        }
    }

    /// The time limit on waiting for the status is reached.
    pub fn status_timed_out(self) -> (end: (TxStep, Metric))
        requires
            self.purpose is Check,
        ensures
            end == (give_up(self.purpose->poll), Metric::RpcTimeoutTotal),
    {
        match self.purpose {
            Purpose::Check { poll } => poll.timed_out(),
            Purpose::Send { .. } => vstd::pervasive::unreached(),
        }
    }
}

impl ExistsCheck {
    fn ask(self, time_limit: Option<Duration>) -> (step: TxStep)
        ensures
            step == ask_exists(self, time_limit),
    {
        TxStep::AskExists {
            message: TxStatus {
                tx_hash: self.submission.tx_hash.clone(),
                signer_account_id: self.submission.signer_account_id.clone(),
                fetch_receipt: false,
            },
            time_limit,
            wait: self,
        }
    }

    /// The view client has replied on whether the transaction exists.
    pub fn replied(self, reply: Result<TxStatusView, RpcTransactionError>) -> (step: TxStep)
        ensures
            step == after_exists(self, reply),
    {
        match reply {
            Ok(TxStatusView { execution_outcome: Some(_), .. }) => {
                self.submission.purpose.settled(Ok(ProcessTxResponse::ValidTx))
            },
            Err(RpcTransactionError::UnknownTransaction { .. }) => {
                self.submission.purpose.settled(Ok(self.response))
            },
            _ => TxStep::SleepExists {
                interval: self.submission.purpose.config().polling_interval,
                wait: self,
            },
        }
    }

    /// The sleep is over.
    pub fn slept(self) -> (step: TxStep)
        ensures
            step == ask_exists(self, None),
    {
        self.ask(None)
    }

    /// The time limit on finding out whether the transaction exists is reached.
    pub fn timed_out(self) -> (end: (TxStep, Metric))
        ensures
            end == (
                after_word(self.submission.purpose, Err(RpcTransactionError::TimeoutError)),
                Metric::RpcTimeoutTotal,
            ),
    {
        let step = self.submission.purpose.settled(Err(RpcTransactionError::TimeoutError));
        (step, Metric::RpcTimeoutTotal)
    }

    /// Whether the time limit on waiting for the status runs meanwhile.
    pub fn is_within_status_limit(&self) -> (within: bool)
        ensures
            within == (self.submission.purpose is Check),
    {
        self.submission.is_within_status_limit()
    }

    /// The time limit on waiting for the status is reached.
    pub fn status_timed_out(self) -> (end: (TxStep, Metric))
        requires
            self.submission.purpose is Check,
        ensures
            end == (give_up(self.submission.purpose->poll), Metric::RpcTimeoutTotal),
    {
        self.submission.status_timed_out()
    }
}

/// Waits until the transaction has come as far as `finality` says.
fn tx_status_fetch(
    polling_config: RpcPollingConfig,
    tx_info: TransactionInfo,
    finality: TxExecutionStatus,
    fetch_receipt: bool,
) -> (step: TxStep)
    ensures
        step == wait_for_status(polling_config, tx_info, finality, fetch_receipt),
{
    let poll = StatusPoll { polling_config, tx_info, finality, fetch_receipt, last_error: None };
    poll.ask(Some(polling_config.polling_timeout))
}

/// How sending a transaction begins.
pub open spec fn begin_send(
    polling_config: RpcPollingConfig,
    request: RpcSendTransactionRequest,
) -> TxStep {
    if request.wait_until is Pending {
        TxStep::Tell {
            message: ProcessTxRequest {
                transaction: request.signed_transaction,
                is_forwarded: false,
                check_only: false,
            },
            response: RpcTransactionResponse {
                final_execution_outcome: None,
                final_execution_status: TxExecutionStatus::Pending,
            },
        }
    } else {
        hand_over(
            request.signed_transaction,
            Purpose::Send {
                polling_config,
                transaction: request.signed_transaction,
                wait_until: request.wait_until,
            },
        )
    }
}

impl JsonRpcHandler {
    /// Sends a transaction without waiting for anything: the message that does so, and the
    /// hash that the transaction can be asked about by.
    pub fn send_tx_async(&self, request_data: RpcSendTransactionRequest) -> (sent: (
        ProcessTxRequest,
        CryptoHash,
    ))
        ensures
            sent.0 == (ProcessTxRequest {
                transaction: request_data.signed_transaction,
                is_forwarded: false,
                check_only: false,
            }),
            sent.1 == request_data.signed_transaction.hash,
    {
        let tx = request_data.signed_transaction;
        let hash = tx.get_hash();
        (ProcessTxRequest { transaction: tx, is_forwarded: false, check_only: false }, hash)
    }

    /// Sends a transaction, and waits until it has come as far as the request says.
    pub fn send_tx(&self, request_data: RpcSendTransactionRequest) -> (step: TxStep)
        ensures
            step == begin_send(self.polling_config, request_data),
    {
        if request_data.wait_until.is_pending() {
            let (message, _) = self.send_tx_async(request_data);
            return TxStep::Tell {
                message,
                response: RpcTransactionResponse {
                    final_execution_outcome: None,
                    final_execution_status: TxExecutionStatus::Pending,
                },
            };
        }
        let tx = request_data.signed_transaction;
        send_tx_internal(
            tx.clone(),
            Purpose::Send {
                polling_config: self.polling_config,
                transaction: tx,
                wait_until: request_data.wait_until,
            },
        )
    }

    /// Sends a transaction, and waits until it is final.
    pub fn send_tx_commit(&self, request_data: RpcSendTransactionRequest) -> (step: TxStep)
        ensures
            step == begin_send(
                self.polling_config,
                RpcSendTransactionRequest { wait_until: TxExecutionStatus::Final, ..request_data },
            ),
    {
        self.send_tx(
            RpcSendTransactionRequest {
                signed_transaction: request_data.signed_transaction,
                wait_until: TxExecutionStatus::Final,
            },
        )
    }

    /// Waits until a transaction has come as far as the request says.
    pub fn tx_status_common(
        &self,
        request_data: RpcTransactionStatusRequest,
        fetch_receipt: bool,
    ) -> (step: TxStep)
        ensures
            step == wait_for_status(
                self.polling_config,
                request_data.transaction_info,
                request_data.wait_until,
                fetch_receipt,
            ),
    {
        tx_status_fetch(
            self.polling_config,
            request_data.transaction_info,
            request_data.wait_until,
            fetch_receipt,
        )
    }
}

/// A transaction is found by its own hash and signer, whether it is given itself or by them, and
/// it can be handed over only where it is given itself.
pub proof fn law_what_a_transaction_is_found_by(
    info: TransactionInfo,
    id: (CryptoHash, AccountId),
    tx: Option<&SignedTransaction>,
)
    requires
        call_ensures(TransactionInfo::to_tx_hash_and_account, (&info,), id),
        call_ensures(TransactionInfo::to_signed_tx, (&info,), tx),
    ensures
        tx is Some <==> info is Transaction,
        tx matches Some(given) ==> {
            &&& info == TransactionInfo::Transaction(*given)
            &&& id == (given.hash, given.signer_id)
        },
        info matches TransactionInfo::TransactionId { tx_hash, sender_account_id } ==> id == (
            tx_hash,
            sender_account_id,
        ),
{
}

} // verus!
