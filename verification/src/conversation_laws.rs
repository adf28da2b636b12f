//! What each thing that comes back means for a conversation about a transaction.
use crate::config::RpcPollingConfig;
use crate::handler::JsonRpcHandler;
use crate::metrics::Metric;
use crate::primitives::{
    CryptoHash, InvalidTxError, ProcessTxResponse, RpcTransactionError, SignedTransaction,
    TxExecutionStatus,
};
use crate::transaction_laws::{can_run, fits, limited, next, run, TxEvent};
use crate::transactions::{
    begin_send, wait_for_status, ExistsCheck, ProcessTxRequest, Purpose,
    RpcSendTransactionRequest, RpcTransactionResponse, RpcTransactionStatusRequest, StatusPoll,
    Submission, TransactionInfo, TxStatus, TxStatusView, TxStep,
};
use std::time::Duration;
use vstd::prelude::*;

verus! {

/// The response that the conversation has ended with, if it has succeeded.
pub open spec fn success(step: TxStep) -> Option<RpcTransactionResponse> {
    match step {
        TxStep::Done { result: Ok(response) } => Some(response),
        _ => None,
    }
}

/// The error that the conversation has ended with, if it has failed.
pub open spec fn failure(step: TxStep) -> Option<RpcTransactionError> {
    match step {
        TxStep::Done { result: Err(error) } => Some(error),
        _ => None,
    }
}

/// The very transaction that is waited for, where it is known.
pub open spec fn known(tx_info: TransactionInfo) -> Option<SignedTransaction> {
    match tx_info {
        TransactionInfo::Transaction(transaction) => Some(transaction),
        TransactionInfo::TransactionId { .. } => None,
    }
}

/// Whether both wait for the same transaction, to the same end and in the same way.
pub open spec fn is_same_wait(one: StatusPoll, other: StatusPoll) -> bool {
    &&& one.polling_config == other.polling_config
    &&& one.tx_info == other.tx_info
    &&& one.finality == other.finality
    &&& one.fetch_receipt == other.fetch_receipt
}

/// Whether the message asks about the transaction of that hash and signer.
pub open spec fn asks_about(message: TxStatus, tx_hash: CryptoHash, signer: Seq<char>) -> bool {
    message.tx_hash == tx_hash && message.signer_account_id@ == signer
}

/// What a reply on the status means. The conversation succeeds exactly where the status has come
/// as far as is waited for, and then with the very outcome and the very status of the reply. It
/// fails exactly on an error, with that very error; but that the transaction is unknown is no
/// failure, unless nothing is waited for and there is no transaction to have looked at. In every
/// other case the same wait goes on, and remembers the error of this reply and of no earlier one.
pub proof fn law_status_reply(
    message: TxStatus,
    time_limit: Option<Duration>,
    poll: StatusPoll,
    reply: Result<TxStatusView, RpcTransactionError>,
)
    ensures
        ({
            let later = next(
                TxStep::AskStatus { message, time_limit, wait: poll },
                TxEvent::Status(reply),
            );
            &&& success(later) is Some <==> (reply matches Ok(view) && view.status.rank()
                >= poll.finality.rank())
            &&& success(later) matches Some(response) ==> (reply matches Ok(view)
                && response.final_execution_outcome == view.execution_outcome
                && response.final_execution_status == view.status)
            &&& failure(later) is Some <==> (reply matches Err(error) && (
            !(error is UnknownTransaction) || (poll.finality is Pending && known(
                poll.tx_info,
            ) is None)))
            &&& failure(later) matches Some(error) ==> reply == Err::<
                TxStatusView,
                RpcTransactionError,
            >(error)
            &&& later is Submit <==> (reply matches Err(error) && error is UnknownTransaction
                && known(poll.tx_info) is Some)
            &&& later is Done || later is Submit || later is SleepStatus
            &&& limited(later) matches Some(after) ==> {
                &&& is_same_wait(after, poll)
                &&& after.last_error == reply.err()
            }
            &&& later matches TxStep::SleepStatus { interval, .. } ==> interval
                == poll.polling_config.polling_interval
            &&& later matches TxStep::Submit { message: handed, wait } ==> {
                &&& known(poll.tx_info) == Some(handed.transaction)
                &&& handed.check_only
                &&& !handed.is_forwarded
                &&& wait.purpose is Check
                &&& wait.tx_hash == handed.transaction.hash
                &&& wait.signer_account_id == handed.transaction.signer_id
            }
        }),
{
}

/// What the client's word means for a transaction that is to be sent. A valid or routed one is
/// waited for from then on, as far as the request says and without receipts. One that is refused
/// for its nonce is looked for, within a time limit of its own. Any other word ends the
/// conversation: with the error that the response is reported as, or with the error that came
/// in place of a response.
pub proof fn law_word_on_sending(
    message: ProcessTxRequest,
    wait: Submission,
    reply: Result<ProcessTxResponse, RpcTransactionError>,
    reported: RpcTransactionError,
)
    requires
        wait.purpose is Send,
        reply matches Ok(response) ==> call_ensures(
            RpcTransactionError::from_network_client_responses,
            (response,),
            reported,
        ),
    ensures
        ({
            let later = next(TxStep::Submit { message, wait }, TxEvent::Word(reply));
            let config = wait.purpose->Send_polling_config;
            let transaction = wait.purpose->transaction;
            &&& success(later) is None
            &&& later is AskStatus <==> (reply matches Ok(response) && (response is ValidTx
                || response is RequestRouted))
            &&& later is AskExists <==> (reply matches Ok(ProcessTxResponse::InvalidTx(refusal))
                && refusal is InvalidNonce)
            &&& later is Done || later is AskStatus || later is AskExists
            &&& failure(later) matches Some(error) ==> match reply {
                Ok(_) => error == reported,
                Err(lost) => error == lost,
            }
            &&& later matches TxStep::AskStatus { message: question, time_limit, wait: poll } ==> {
                &&& asks_about(question, transaction.hash, transaction.signer_id@)
                &&& !question.fetch_receipt
                &&& time_limit == Some(config.polling_timeout)
                &&& poll.polling_config == config
                &&& known(poll.tx_info) == Some(transaction)
                &&& poll.finality == wait.purpose->wait_until
                &&& !poll.fetch_receipt
                &&& poll.last_error is None
            }
            &&& later matches TxStep::AskExists { message: question, time_limit, wait: check } ==> {
                &&& asks_about(question, wait.tx_hash, wait.signer_account_id@)
                &&& !question.fetch_receipt
                &&& time_limit == Some(config.polling_timeout)
                &&& check.submission == wait
                &&& reply == Ok::<ProcessTxResponse, RpcTransactionError>(check.response)
            }
        }),
{
}

/// What the client's word means for a transaction that it only looks at. A refusal ends the
/// conversation with that refusal, save for one for its nonce, on which the transaction is
/// looked for. Whatever else is said, or not, the same wait goes on after a sleep, unless
/// nothing is waited for: then it ends with the error that it remembers.
pub proof fn law_word_on_checking(
    message: ProcessTxRequest,
    wait: Submission,
    reply: Result<ProcessTxResponse, RpcTransactionError>,
)
    requires
        wait.purpose is Check,
    ensures
        ({
            let later = next(TxStep::Submit { message, wait }, TxEvent::Word(reply));
            let poll = wait.purpose->poll;
            let refused = reply matches Ok(response) && response is InvalidTx;
            &&& success(later) is None
            &&& later is AskExists <==> (reply matches Ok(ProcessTxResponse::InvalidTx(refusal))
                && refusal is InvalidNonce)
            &&& later is SleepStatus <==> !refused && !(poll.finality is Pending)
            &&& later is Done || later is AskExists || later is SleepStatus
            &&& failure(later) matches Some(error) ==> if refused {
                reply matches Ok(ProcessTxResponse::InvalidTx(refusal)) && error == (
                RpcTransactionError::InvalidTransaction { context: refusal })
            } else {
                match poll.last_error {
                    Some(last) => error == last,
                    None => error == RpcTransactionError::TimeoutError,
                }
            }
            &&& later matches TxStep::SleepStatus { interval, wait: after } ==> {
                &&& interval == poll.polling_config.polling_interval
                &&& after == poll
            }
            &&& later matches TxStep::AskExists { message: question, time_limit, wait: check } ==> {
                &&& asks_about(question, wait.tx_hash, wait.signer_account_id@)
                &&& !question.fetch_receipt
                &&& time_limit == Some(poll.polling_config.polling_timeout)
                &&& check.submission == wait
                &&& reply == Ok::<ProcessTxResponse, RpcTransactionError>(check.response)
            }
        }),
{
}

/// What a reply on whether a transaction exists means. Where it has an outcome, the conversation
/// goes on exactly as if the client had called it valid. Where it is unknown, the refusal
/// stands. In every other case the same look is repeated after a sleep.
pub proof fn law_existence_reply(
    message: TxStatus,
    time_limit: Option<Duration>,
    check: ExistsCheck,
    refusal: InvalidTxError,
    reply: Result<TxStatusView, RpcTransactionError>,
    any_message: ProcessTxRequest,
)
    requires
        check.response == ProcessTxResponse::InvalidTx(refusal),
    ensures
        ({
            let later = next(
                TxStep::AskExists { message, time_limit, wait: check },
                TxEvent::Status(reply),
            );
            let found = reply matches Ok(view) && view.execution_outcome is Some;
            let missing = reply matches Err(error) && error is UnknownTransaction;
            &&& found ==> later == next(
                TxStep::Submit { message: any_message, wait: check.submission },
                TxEvent::Word(Ok(ProcessTxResponse::ValidTx)),
            )
            &&& missing ==> failure(later) == Some(
                RpcTransactionError::InvalidTransaction { context: refusal },
            )
            &&& later is SleepExists <==> !found && !missing
            &&& later matches TxStep::SleepExists { interval, wait: after } ==> {
                &&& interval == check.submission.purpose.polling_config().polling_interval
                &&& after == check
            }
        }),
{
}

/// What the end of the time limit on looking for a transaction means: one that is to be sent
/// fails with a timeout, and one that is only looked at is as if the client had not replied.
pub proof fn law_look_that_times_out(
    message: TxStatus,
    time_limit: Option<Duration>,
    interval: Duration,
    check: ExistsCheck,
    any_message: ProcessTxRequest,
)
    ensures
        ({
            let asking = next(
                TxStep::AskExists { message, time_limit, wait: check },
                TxEvent::ExistsTimeout,
            );
            let sleeping = next(
                TxStep::SleepExists { interval, wait: check },
                TxEvent::ExistsTimeout,
            );
            &&& asking == sleeping
            &&& check.submission.purpose is Send ==> failure(asking) == Some(
                RpcTransactionError::TimeoutError,
            )
            &&& asking == next(
                TxStep::Submit { message: any_message, wait: check.submission },
                TxEvent::Word(Err(RpcTransactionError::TimeoutError)),
            )
        }),
{
}

/// After a sleep the same question is asked again, and its time limit goes on running.
pub proof fn law_sleep_is_followed_by_the_question(
    interval: Duration,
    poll: StatusPoll,
    check: ExistsCheck,
)
    ensures
        next(TxStep::SleepStatus { interval, wait: poll }, TxEvent::Slept) matches
            TxStep::AskStatus { message, time_limit, wait } && wait == poll && time_limit is None
            && message.fetch_receipt == poll.fetch_receipt && match poll.tx_info {
            TransactionInfo::Transaction(transaction) => asks_about(
                message,
                transaction.hash,
                transaction.signer_id@,
            ),
            TransactionInfo::TransactionId { tx_hash, sender_account_id } => asks_about(
                message,
                tx_hash,
                sender_account_id@,
            ),
        },
        next(TxStep::SleepExists { interval, wait: check }, TxEvent::Slept) matches
            TxStep::AskExists { message, time_limit, wait } && wait == check && time_limit is None
            && !message.fetch_receipt && asks_about(
            message,
            check.submission.tx_hash,
            check.submission.signer_account_id@,
        ),
{
}

/// When the time limit on waiting for the status is reached, whatever is done just then, the
/// conversation ends with the error that the wait remembers, and with a timeout where it
/// remembers none.
pub proof fn law_wait_that_times_out(step: TxStep, poll: StatusPoll)
    requires
        limited(step) == Some(poll),
    ensures
        failure(next(step, TxEvent::StatusTimeout)) == Some(
            match poll.last_error {
                Some(error) => error,
                None => RpcTransactionError::TimeoutError,
            },
        ),
{
}

/// How sending a transaction begins: where nothing is waited for the client is told, and that is
/// the answer. Otherwise the transaction is handed over to be sent and to be waited for.
pub proof fn law_sending_begins(
    polling_config: RpcPollingConfig,
    request: RpcSendTransactionRequest,
)
    ensures
        ({
            let step = begin_send(polling_config, request);
            &&& step is Tell <==> request.wait_until is Pending
            &&& step is Submit <==> !(request.wait_until is Pending)
            &&& step matches TxStep::Tell { message, response } ==> {
                &&& message.transaction == request.signed_transaction
                &&& !message.is_forwarded
                &&& !message.check_only
                &&& response.final_execution_outcome is None
                &&& response.final_execution_status is Pending
                &&& success(next(step, TxEvent::Told)) == Some(response)
            }
            &&& step matches TxStep::Submit { message, wait } ==> {
                &&& message.transaction == request.signed_transaction
                &&& !message.is_forwarded
                &&& !message.check_only
                &&& wait.tx_hash == request.signed_transaction.hash
                &&& wait.signer_account_id == request.signed_transaction.signer_id
                &&& wait.purpose == (Purpose::Send {
                    polling_config,
                    transaction: request.signed_transaction,
                    wait_until: request.wait_until,
                })
            }
        }),
{
}

/// How waiting for the status begins: with the question for it, and with the time limit. It makes
/// no difference to the question whether the transaction itself is given or what it is found by.
pub proof fn law_waiting_begins(
    polling_config: RpcPollingConfig,
    transaction: SignedTransaction,
    finality: TxExecutionStatus,
    fetch_receipt: bool,
)
    ensures
        ({
            let by_transaction = wait_for_status(
                polling_config,
                TransactionInfo::Transaction(transaction),
                finality,
                fetch_receipt,
            );
            let by_id = wait_for_status(
                polling_config,
                TransactionInfo::TransactionId {
                    tx_hash: transaction.hash,
                    sender_account_id: transaction.signer_id,
                },
                finality,
                fetch_receipt,
            );
            &&& by_transaction matches TxStep::AskStatus { message, time_limit, wait } && ({
                &&& asks_about(message, transaction.hash, transaction.signer_id@)
                &&& message.fetch_receipt == fetch_receipt
                &&& time_limit == Some(polling_config.polling_timeout)
                &&& wait.polling_config == polling_config
                &&& wait.tx_info == TransactionInfo::Transaction(transaction)
                &&& wait.finality == finality
                &&& wait.fetch_receipt == fetch_receipt
                &&& wait.last_error is None
                &&& by_id matches TxStep::AskStatus {
                    message: same,
                    time_limit: same_limit,
                    wait: other,
                } && same == message && same_limit == time_limit && other == (StatusPoll {
                    tx_info: TransactionInfo::TransactionId {
                        tx_hash: transaction.hash,
                        sender_account_id: transaction.signer_id,
                    },
                    ..wait
                })
            })
        }),
{
}

/// The last reply on the status, if there was one.
pub open spec fn last_status_reply(start: TxStep, events: Seq<TxEvent>) -> Option<
    Result<TxStatusView, RpcTransactionError>,
>
    decreases events.len(),
{
    if events.len() == 0 {
        None
    } else {
        match events.last() {
            TxEvent::Status(reply) if run(start, events.drop_last()) is AskStatus => Some(reply),
            _ => last_status_reply(start, events.drop_last()),
        }
    }
}

/// The error that the reply was, if there was one and it was an error.
pub open spec fn error_of(reply: Option<Result<TxStatusView, RpcTransactionError>>) -> Option<
    RpcTransactionError,
> {
    match reply {
        Some(Err(error)) => Some(error),
        _ => None,
    }
}

/// Whether a conversation that only waits has come to this step after that reply.
spec fn waits_after(
    step: TxStep,
    polling_config: RpcPollingConfig,
    tx_info: TransactionInfo,
    finality: TxExecutionStatus,
    fetch_receipt: bool,
    reply: Option<Result<TxStatusView, RpcTransactionError>>,
) -> bool {
    step is Done || (limited(step) matches Some(poll) && poll == (StatusPoll {
        polling_config,
        tx_info,
        finality,
        fetch_receipt,
        last_error: error_of(reply),
    }))
}

proof fn lemma_waits_after(
    polling_config: RpcPollingConfig,
    tx_info: TransactionInfo,
    finality: TxExecutionStatus,
    fetch_receipt: bool,
    events: Seq<TxEvent>,
)
    requires
        can_run(wait_for_status(polling_config, tx_info, finality, fetch_receipt), events),
    ensures
        ({
            let start = wait_for_status(polling_config, tx_info, finality, fetch_receipt);
            waits_after(
                run(start, events),
                polling_config,
                tx_info,
                finality,
                fetch_receipt,
                last_status_reply(start, events),
            )
        }),
    decreases events.len(),
{
    if events.len() > 0 {
        lemma_waits_after(polling_config, tx_info, finality, fetch_receipt, events.drop_last());
    }
}

/// As long as something is waited for, that the transaction is unknown never ends the wait by
/// itself: it is the answer only where the time limit is reached.
pub proof fn law_unknown_never_ends_the_wait(
    polling_config: RpcPollingConfig,
    tx_info: TransactionInfo,
    finality: TxExecutionStatus,
    fetch_receipt: bool,
    events: Seq<TxEvent>,
)
    requires
        !(finality is Pending),
        can_run(wait_for_status(polling_config, tx_info, finality, fetch_receipt), events),
    ensures
        failure(
            run(wait_for_status(polling_config, tx_info, finality, fetch_receipt), events),
        ) matches Some(error) && error is UnknownTransaction ==> events.len() > 0
            && events.last() is StatusTimeout,
{
    if events.len() > 0 {
        lemma_waits_after(polling_config, tx_info, finality, fetch_receipt, events.drop_last());
        let start = wait_for_status(polling_config, tx_info, finality, fetch_receipt);
        assert(fits(run(start, events.drop_last()), events.last()));
    }
}

/// A wait that reaches its time limit ends with the error of the last reply on the status, and
/// with a timeout where the last reply was no error or there was none.
pub proof fn law_timeout_tells_the_last_reply(
    polling_config: RpcPollingConfig,
    tx_info: TransactionInfo,
    finality: TxExecutionStatus,
    fetch_receipt: bool,
    events: Seq<TxEvent>,
)
    requires
        can_run(wait_for_status(polling_config, tx_info, finality, fetch_receipt), events),
    ensures
        ({
            let start = wait_for_status(polling_config, tx_info, finality, fetch_receipt);
            let step = run(start, events);
            step is Done || failure(next(step, TxEvent::StatusTimeout)) == Some(
                match last_status_reply(start, events) {
                    Some(Err(error)) => error,
                    _ => RpcTransactionError::TimeoutError,
                },
            )
        }),
{
    lemma_waits_after(polling_config, tx_info, finality, fetch_receipt, events);
}

/// Why a conversation that only waits fails: an error on the status that is not that the
/// transaction is unknown, a refusal of the transaction, the end of the time limit, or, where
/// nothing is waited for, that it is unknown.
pub proof fn law_why_waiting_fails(
    polling_config: RpcPollingConfig,
    tx_info: TransactionInfo,
    finality: TxExecutionStatus,
    fetch_receipt: bool,
    events: Seq<TxEvent>,
    error: RpcTransactionError,
)
    requires
        can_run(wait_for_status(polling_config, tx_info, finality, fetch_receipt), events),
        failure(
            run(wait_for_status(polling_config, tx_info, finality, fetch_receipt), events),
        ) == Some(error),
    ensures
        events.len() > 0,
        ({
            let start = wait_for_status(polling_config, tx_info, finality, fetch_receipt);
            let before = run(start, events.drop_last());
            ||| before is AskStatus && events.last() == TxEvent::Status(Err(error))
            ||| before is Submit && (events.last() matches TxEvent::Word(
                Ok(ProcessTxResponse::InvalidTx(context)),
            ) && error == (RpcTransactionError::InvalidTransaction { context }))
            ||| before is AskExists && error is InvalidTransaction && (events.last() matches
                TxEvent::Status(Err(missing)) && missing is UnknownTransaction)
            ||| events.last() is StatusTimeout
            ||| finality is Pending && error_of(last_status_reply(start, events)) == Some(error)
                && error is UnknownTransaction
        }),
{
    let start = wait_for_status(polling_config, tx_info, finality, fetch_receipt);
    lemma_why_waiting_fails(polling_config, tx_info, finality, fetch_receipt, events);
    lemma_waits_after(polling_config, tx_info, finality, fetch_receipt, events.drop_last());
    assert(fits(run(start, events.drop_last()), events.last()));
}

/// Whether the transaction is looked at for a wait that remembers that it is unknown.
spec fn is_for_unknown(purpose: Purpose) -> bool {
    match purpose {
        Purpose::Check { poll } => poll.last_error matches Some(error)
            && error is UnknownTransaction,
        Purpose::Send { .. } => false,
    }
}

/// Whether a conversation that only waits hands the transaction over, or looks for it, only
/// because it is unknown.
spec fn is_busy_with_unknown(step: TxStep) -> bool {
    match step {
        TxStep::Submit { wait, .. } => is_for_unknown(wait.purpose),
        TxStep::AskExists { wait, .. } => is_for_unknown(wait.submission.purpose)
            && wait.response is InvalidTx,
        TxStep::SleepExists { wait, .. } => is_for_unknown(wait.submission.purpose)
            && wait.response is InvalidTx,
        TxStep::Tell { .. } => false,
        _ => true,
    }
}

proof fn lemma_why_waiting_fails(
    polling_config: RpcPollingConfig,
    tx_info: TransactionInfo,
    finality: TxExecutionStatus,
    fetch_receipt: bool,
    events: Seq<TxEvent>,
)
    ensures
        is_busy_with_unknown(
            run(wait_for_status(polling_config, tx_info, finality, fetch_receipt), events),
        ),
        events.len() > 0 ==> is_busy_with_unknown(
            run(
                wait_for_status(polling_config, tx_info, finality, fetch_receipt),
                events.drop_last(),
            ),
        ),
    decreases events.len(),
{
    if events.len() > 0 {
        lemma_why_waiting_fails(
            polling_config,
            tx_info,
            finality,
            fetch_receipt,
            events.drop_last(),
        );
    }
}

/// A conversation that only waits and succeeds does so on a reply on the status, and with the
/// very outcome and the very status of that reply, whether receipts were asked for or not.
pub proof fn law_waiting_succeeds_with_the_reply(
    polling_config: RpcPollingConfig,
    tx_info: TransactionInfo,
    finality: TxExecutionStatus,
    fetch_receipt: bool,
    events: Seq<TxEvent>,
    response: RpcTransactionResponse,
)
    requires
        can_run(wait_for_status(polling_config, tx_info, finality, fetch_receipt), events),
        success(
            run(wait_for_status(polling_config, tx_info, finality, fetch_receipt), events),
        ) == Some(response),
    ensures
        events.len() > 0,
        events.last() == TxEvent::Status(
            Ok(
                TxStatusView {
                    execution_outcome: response.final_execution_outcome,
                    status: response.final_execution_status,
                },
            ),
        ),
        run(
            wait_for_status(polling_config, tx_info, finality, fetch_receipt),
            events.drop_last(),
        ) is AskStatus,
{
    let start = wait_for_status(polling_config, tx_info, finality, fetch_receipt);
    lemma_success_is_a_reply(start, events, response);
}

proof fn lemma_success_is_a_reply(
    start: TxStep,
    events: Seq<TxEvent>,
    response: RpcTransactionResponse,
)
    requires
        success(start) is None,
        can_run(start, events),
        success(run(start, events)) == Some(response),
    ensures
        events.len() > 0,
        events.last() is Told || (events.last() == TxEvent::Status(
            Ok(
                TxStatusView {
                    execution_outcome: response.final_execution_outcome,
                    status: response.final_execution_status,
                },
            ),
        ) && run(start, events.drop_last()) is AskStatus),
        events.last() is Told ==> run(start, events.drop_last()) is Tell,
        !(start is Tell) ==> !(run(start, events.drop_last()) is Tell),
{
    assert(fits(run(start, events.drop_last()), events.last()));
    if !(start is Tell) {
        lemma_never_tells(start, events.drop_last());
    }
}

proof fn lemma_never_tells(start: TxStep, events: Seq<TxEvent>)
    requires
        !(start is Tell),
    ensures
        !(run(start, events) is Tell),
    decreases events.len(),
{
    if events.len() > 0 {
        lemma_never_tells(start, events.drop_last());
    }
}

/// Sending a transaction and waiting for it succeeds on a reply on the status, and with the very
/// outcome and the very status of that reply. Where nothing is waited for it succeeds as soon as
/// the client is told, without an outcome.
pub proof fn law_sending_succeeds_with_the_reply(
    polling_config: RpcPollingConfig,
    request: RpcSendTransactionRequest,
    events: Seq<TxEvent>,
    response: RpcTransactionResponse,
)
    requires
        can_run(begin_send(polling_config, request), events),
        success(run(begin_send(polling_config, request), events)) == Some(response),
    ensures
        events.len() > 0,
        request.wait_until is Pending ==> {
            &&& events =~= seq![TxEvent::Told]
            &&& response.final_execution_outcome is None
            &&& response.final_execution_status is Pending
        },
        !(request.wait_until is Pending) ==> {
            &&& events.last() == TxEvent::Status(
                Ok(
                    TxStatusView {
                        execution_outcome: response.final_execution_outcome,
                        status: response.final_execution_status,
                    },
                ),
            )
            &&& run(begin_send(polling_config, request), events.drop_last()) is AskStatus
        },
{
    let start = begin_send(polling_config, request);
    lemma_success_is_a_reply(start, events, response);
    if request.wait_until is Pending {
        lemma_told_ends(start, events);
    }
}

proof fn lemma_told_ends(start: TxStep, events: Seq<TxEvent>)
    requires
        start is Tell,
        can_run(start, events),
        events.len() > 0,
    ensures
        events.len() == 1,
        events[0] is Told,
    decreases events.len(),
{
    if events.len() > 1 {
        lemma_told_ends(start, events.drop_last());
        assert(events.drop_last().drop_last().len() == 0);
        assert(run(start, events.drop_last().drop_last()) == start);
        assert(run(start, events.drop_last()) is Done);
        assert(fits(run(start, events.drop_last()), events.last()));
    } else {
        assert(run(start, events.drop_last()) == start);
        assert(fits(start, events.last()));
    }
}

/// Sending a transaction fails for want of it on the chain only where the time limit is reached,
/// or where the client's very first word was that error.
pub proof fn law_unknown_never_ends_sending(
    polling_config: RpcPollingConfig,
    request: RpcSendTransactionRequest,
    events: Seq<TxEvent>,
)
    requires
        can_run(begin_send(polling_config, request), events),
        failure(run(begin_send(polling_config, request), events)) matches Some(error)
            && error is UnknownTransaction,
    ensures
        events.len() > 0,
        events.last() is StatusTimeout || (run(
            begin_send(polling_config, request),
            events.drop_last(),
        ) is Submit && events.last() == TxEvent::Word(
            Err(failure(run(begin_send(polling_config, request), events))->0),
        )),
{
    let start = begin_send(polling_config, request);
    if request.wait_until is Pending {
        lemma_told_ends(start, events);
        assert(run(start, events.drop_last()) == start);
    }
    lemma_sending_waits_for(start, events.drop_last(), request);
    assert(fits(run(start, events.drop_last()), events.last()));
}

/// Whether what the step waits for is what the request waits for.
spec fn waits_for(step: TxStep, request: RpcSendTransactionRequest) -> bool {
    let of_purpose = |purpose: Purpose|
        match purpose {
            Purpose::Send { wait_until, .. } => wait_until == request.wait_until,
            Purpose::Check { poll } => poll.finality == request.wait_until,
        };
    match step {
        TxStep::Submit { wait, .. } => of_purpose(wait.purpose),
        TxStep::AskExists { wait, .. } => of_purpose(wait.submission.purpose)
            && wait.response is InvalidTx,
        TxStep::SleepExists { wait, .. } => of_purpose(wait.submission.purpose)
            && wait.response is InvalidTx,
        TxStep::AskStatus { wait, .. } => wait.finality == request.wait_until,
        TxStep::SleepStatus { wait, .. } => wait.finality == request.wait_until,
        TxStep::Tell { .. } => request.wait_until is Pending,
        TxStep::Done { .. } => true,
    }
}

proof fn lemma_sending_waits_for(
    step: TxStep,
    events: Seq<TxEvent>,
    request: RpcSendTransactionRequest,
)
    requires
        waits_for(step, request),
    ensures
        waits_for(run(step, events), request),
    decreases events.len(),
{
    if events.len() > 0 {
        lemma_sending_waits_for(step, events.drop_last(), request);
    }
}

/// What is done with a reply on the status, at the end of a sleep and at the end of the time
/// limit is the step that follows in the conversation. The time limit is counted when it ends.
pub proof fn law_status_poll_is_carried_out(
    poll: StatusPoll,
    message: TxStatus,
    time_limit: Option<Duration>,
    interval: Duration,
    reply: Result<TxStatusView, RpcTransactionError>,
    step: TxStep,
    end: (TxStep, Metric),
)
    ensures
        call_ensures(StatusPoll::replied, (poll, reply), step) ==> step == next(
            TxStep::AskStatus { message, time_limit, wait: poll },
            TxEvent::Status(reply),
        ),
        call_ensures(StatusPoll::slept, (poll,), step) ==> step == next(
            TxStep::SleepStatus { interval, wait: poll },
            TxEvent::Slept,
        ),
        call_ensures(StatusPoll::timed_out, (poll,), end) ==> {
            &&& end.0 == next(
                TxStep::AskStatus { message, time_limit, wait: poll },
                TxEvent::StatusTimeout,
            )
            &&& end.0 == next(
                TxStep::SleepStatus { interval, wait: poll },
                TxEvent::StatusTimeout,
            )
            &&& end.1 is RpcTimeoutTotal
        },
{
}

/// What is done with the client's word, and at the end of the time limit meanwhile, is the step
/// that follows in the conversation. The time limit on the status runs meanwhile exactly where
/// the transaction is only looked at.
pub proof fn law_submission_is_carried_out(
    wait: Submission,
    message: ProcessTxRequest,
    reply: Result<ProcessTxResponse, RpcTransactionError>,
    step: TxStep,
    within: bool,
    end: (TxStep, Metric),
)
    ensures
        call_ensures(Submission::replied, (wait, reply), step) ==> step == next(
            TxStep::Submit { message, wait },
            TxEvent::Word(reply),
        ),
        call_ensures(Submission::is_within_status_limit, (&wait,), within) ==> within == fits(
            TxStep::Submit { message, wait },
            TxEvent::StatusTimeout,
        ),
        call_requires(Submission::status_timed_out, (wait,)) <== fits(
            TxStep::Submit { message, wait },
            TxEvent::StatusTimeout,
        ),
        call_ensures(Submission::status_timed_out, (wait,), end) && wait.purpose is Check ==> {
            &&& end.0 == next(TxStep::Submit { message, wait }, TxEvent::StatusTimeout)
            &&& end.1 is RpcTimeoutTotal
        },
{
}

/// What is done with a reply on whether the transaction exists, at the end of a sleep and at the
/// end of either time limit is the step that follows in the conversation.
pub proof fn law_existence_check_is_carried_out(
    check: ExistsCheck,
    message: TxStatus,
    time_limit: Option<Duration>,
    interval: Duration,
    reply: Result<TxStatusView, RpcTransactionError>,
    step: TxStep,
    within: bool,
    end: (TxStep, Metric),
)
    ensures
        call_ensures(ExistsCheck::replied, (check, reply), step) ==> step == next(
            TxStep::AskExists { message, time_limit, wait: check },
            TxEvent::Status(reply),
        ),
        call_ensures(ExistsCheck::slept, (check,), step) ==> step == next(
            TxStep::SleepExists { interval, wait: check },
            TxEvent::Slept,
        ),
        call_ensures(ExistsCheck::timed_out, (check,), end) ==> {
            &&& end.0 == next(
                TxStep::AskExists { message, time_limit, wait: check },
                TxEvent::ExistsTimeout,
            )
            &&& end.0 == next(
                TxStep::SleepExists { interval, wait: check },
                TxEvent::ExistsTimeout,
            )
            &&& end.1 is RpcTimeoutTotal
        },
        call_ensures(ExistsCheck::is_within_status_limit, (&check,), within) ==> within == fits(
            TxStep::AskExists { message, time_limit, wait: check },
            TxEvent::StatusTimeout,
        ),
        call_requires(ExistsCheck::status_timed_out, (check,)) <== fits(
            TxStep::SleepExists { interval, wait: check },
            TxEvent::StatusTimeout,
        ),
        call_ensures(ExistsCheck::status_timed_out, (check,), end)
            && check.submission.purpose is Check ==> {
            &&& end.0 == next(
                TxStep::AskExists { message, time_limit, wait: check },
                TxEvent::StatusTimeout,
            )
            &&& end.0 == next(
                TxStep::SleepExists { interval, wait: check },
                TxEvent::StatusTimeout,
            )
            &&& end.1 is RpcTimeoutTotal
        },
{
}

/// The methods begin the conversations: sending as the request says, sending until the
/// transaction is final, waiting for the status, and sending without waiting for anything.
pub proof fn law_methods_begin_conversations(
    handler: JsonRpcHandler,
    request: RpcSendTransactionRequest,
    status_request: RpcTransactionStatusRequest,
    fetch_receipt: bool,
    step: TxStep,
    sent: (ProcessTxRequest, CryptoHash),
)
    ensures
        call_ensures(JsonRpcHandler::send_tx, (&handler, request), step) ==> step == begin_send(
            handler.polling_config,
            request,
        ),
        call_ensures(JsonRpcHandler::send_tx_commit, (&handler, request), step) ==> ({
            &&& step is Submit
            &&& step == begin_send(
                handler.polling_config,
                RpcSendTransactionRequest {
                    signed_transaction: request.signed_transaction,
                    wait_until: TxExecutionStatus::Final,
                },
            )
        }),
        call_ensures(
            JsonRpcHandler::tx_status_common,
            (&handler, status_request, fetch_receipt),
            step,
        ) ==> step == wait_for_status(
            handler.polling_config,
            status_request.transaction_info,
            status_request.wait_until,
            fetch_receipt,
        ),
        call_ensures(JsonRpcHandler::send_tx_async, (&handler, request), sent) ==> {
            &&& sent.0.transaction == request.signed_transaction
            &&& !sent.0.is_forwarded
            &&& !sent.0.check_only
            &&& sent.1 == request.signed_transaction.hash
        },
{
}

} // verus!
