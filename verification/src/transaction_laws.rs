//! What holds of every conversation about a transaction, whatever comes back.
use crate::config::RpcPollingConfig;
use crate::primitives::{
    AccountId, CryptoHash, InvalidTxError, ProcessTxResponse, RpcTransactionError,
    SignedTransaction, TxExecutionStatus,
};
use crate::transactions::{
    after_exists, after_reply, after_status, after_word, ask_exists, ask_status, begin_send,
    give_up, wait_for_status, ExistsCheck, Purpose, RpcSendTransactionRequest, StatusPoll,
    Submission, TransactionInfo, TxStatusView, TxStep,
};
use serde_json::Value;
use vstd::prelude::*;

verus! {

/// Something that can come back while a conversation waits.
pub enum TxEvent {
    /// The message was handed over.
    Told,
    /// The client has replied.
    Word(Result<ProcessTxResponse, RpcTransactionError>),
    /// The view client has replied.
    Status(Result<TxStatusView, RpcTransactionError>),
    /// The sleep is over.
    Slept,
    /// The time limit on finding out whether the transaction exists is reached.
    ExistsTimeout,
    /// The time limit on waiting for the status is reached.
    StatusTimeout,
}

/// The wait that the time limit on the status runs over, if it does.
pub open spec fn limited(step: TxStep) -> Option<StatusPoll> {
    match step {
        TxStep::Submit { wait: Submission { purpose: Purpose::Check { poll }, .. }, .. } => Some(
            poll,
        ),
        TxStep::AskExists {
            wait: ExistsCheck {
                submission: Submission { purpose: Purpose::Check { poll }, .. },
                ..
            },
            ..
        } => Some(poll),
        TxStep::SleepExists {
            wait: ExistsCheck {
                submission: Submission { purpose: Purpose::Check { poll }, .. },
                ..
            },
            ..
        } => Some(poll),
        TxStep::AskStatus { wait, .. } => Some(wait),
        TxStep::SleepStatus { wait, .. } => Some(wait),
        _ => None,
    }
}

/// Whether the event can come back while the step waits.
pub open spec fn fits(step: TxStep, event: TxEvent) -> bool {
    match event {
        TxEvent::Told => step is Tell,
        TxEvent::Word(_) => step is Submit,
        TxEvent::Status(_) => step is AskExists || step is AskStatus,
        TxEvent::Slept => step is SleepExists || step is SleepStatus,
        TxEvent::ExistsTimeout => step is AskExists || step is SleepExists,
        TxEvent::StatusTimeout => limited(step) is Some,
    }
}

/// The step that follows on an event.
pub open spec fn next(step: TxStep, event: TxEvent) -> TxStep {
    match (step, event) {
        (TxStep::Tell { response, .. }, TxEvent::Told) => TxStep::Done { result: Ok(response) },
        (TxStep::Submit { wait, .. }, TxEvent::Word(reply)) => after_reply(wait, reply),
        (TxStep::AskExists { wait, .. }, TxEvent::Status(reply)) => after_exists(wait, reply),
        (TxStep::AskStatus { wait, .. }, TxEvent::Status(reply)) => after_status(wait, reply),
        (TxStep::SleepExists { wait, .. }, TxEvent::Slept) => ask_exists(wait, None),
        (TxStep::SleepStatus { wait, .. }, TxEvent::Slept) => ask_status(wait, None),
        (TxStep::AskExists { wait, .. }, TxEvent::ExistsTimeout) => after_word(
            wait.submission.purpose,
            Err(RpcTransactionError::TimeoutError),
        ),
        (TxStep::SleepExists { wait, .. }, TxEvent::ExistsTimeout) => after_word(
            wait.submission.purpose,
            Err(RpcTransactionError::TimeoutError),
        ),
        (_, TxEvent::StatusTimeout) => match limited(step) {
            Some(poll) => give_up(poll),
            None => step,
        },
        _ => step,
    }
}

/// The step that a conversation has come to after the events.
pub open spec fn run(step: TxStep, events: Seq<TxEvent>) -> TxStep
    decreases events.len(),
{
    if events.len() == 0 {
        step
    } else {
        next(run(step, events.drop_last()), events.last())
    }
}

/// Whether each of the events can come back when it does.
pub open spec fn can_run(step: TxStep, events: Seq<TxEvent>) -> bool
    decreases events.len(),
{
    events.len() == 0 || (can_run(step, events.drop_last()) && fits(
        run(step, events.drop_last()),
        events.last(),
    ))
}

/// Whether the step puts the transaction on its way, rather than asking about it.
pub open spec fn sends(step: TxStep) -> bool {
    match step {
        TxStep::Tell { message, .. } => !message.check_only,
        TxStep::Submit { message, .. } => !message.check_only,
        _ => false,
    }
}

/// What a conversation is about, and what it must keep to.
pub struct Terms {
    pub polling_config: RpcPollingConfig,
    pub tx_hash: CryptoHash,
    pub account: AccountId,
    pub finality: TxExecutionStatus,
}

spec fn poll_keeps(poll: StatusPoll, terms: Terms) -> bool {
    &&& poll.polling_config == terms.polling_config
    &&& poll.tx_info.tx_hash() == terms.tx_hash
    &&& poll.tx_info.account() == terms.account
    &&& poll.finality == terms.finality
}

spec fn purpose_keeps(purpose: Purpose, terms: Terms) -> bool {
    match purpose {
        Purpose::Send { polling_config, transaction, wait_until } => {
            &&& polling_config == terms.polling_config
            &&& transaction.hash == terms.tx_hash
            &&& transaction.signer_id == terms.account
            &&& wait_until == terms.finality
        },
        Purpose::Check { poll } => poll_keeps(poll, terms),
    }
}

spec fn submission_keeps(submission: Submission, terms: Terms) -> bool {
    &&& submission.tx_hash == terms.tx_hash
    &&& submission.signer_account_id == terms.account
    &&& purpose_keeps(submission.purpose, terms)
}

spec fn wait_keeps(step: TxStep, terms: Terms) -> bool {
    match step {
        TxStep::Submit { wait, .. } => submission_keeps(wait, terms),
        TxStep::AskExists { wait, .. } => submission_keeps(wait.submission, terms),
        TxStep::SleepExists { wait, .. } => submission_keeps(wait.submission, terms),
        TxStep::AskStatus { wait, .. } => poll_keeps(wait, terms),
        TxStep::SleepStatus { wait, .. } => poll_keeps(wait, terms),
        _ => true,
    }
}

/// Whether the step keeps to the terms: a message is about the transaction, a sleep takes
/// the polling interval, a time limit is the polling timeout, and a success is a status
/// that reaches the finality.
pub open spec fn keeps(step: TxStep, terms: Terms) -> bool {
    match step {
        TxStep::Tell { message, response } => {
            &&& message.transaction.hash == terms.tx_hash
            &&& message.transaction.signer_id == terms.account
            &&& response.final_execution_status.rank() >= terms.finality.rank()
        },
        TxStep::Submit { message, .. } => {
            &&& message.transaction.hash == terms.tx_hash
            &&& message.transaction.signer_id == terms.account
        },
        TxStep::AskExists { message, time_limit, .. } => {
            &&& message.tx_hash == terms.tx_hash
            &&& message.signer_account_id == terms.account
            &&& time_limit is None || time_limit == Some(terms.polling_config.polling_timeout)
        },
        TxStep::AskStatus { message, time_limit, .. } => {
            &&& message.tx_hash == terms.tx_hash
            &&& message.signer_account_id == terms.account
            &&& time_limit is None || time_limit == Some(terms.polling_config.polling_timeout)
        },
        TxStep::SleepExists { interval, .. } => interval == terms.polling_config.polling_interval,
        TxStep::SleepStatus { interval, .. } => interval == terms.polling_config.polling_interval,
        TxStep::Done { result: Ok(response) } => response.final_execution_status.rank()
            >= terms.finality.rank(),
        TxStep::Done { result: Err(_) } => true,
    }
}

proof fn lemma_next_keeps(step: TxStep, event: TxEvent, terms: Terms)
    requires
        keeps(step, terms),
        wait_keeps(step, terms),
    ensures
        keeps(next(step, event), terms),
        wait_keeps(next(step, event), terms),
{
}

proof fn lemma_run_keeps(step: TxStep, events: Seq<TxEvent>, terms: Terms)
    requires
        keeps(step, terms),
        wait_keeps(step, terms),
    ensures
        keeps(run(step, events), terms),
        wait_keeps(run(step, events), terms),
    decreases events.len(),
{
    if events.len() > 0 {
        lemma_run_keeps(step, events.drop_last(), terms);
        lemma_next_keeps(run(step, events.drop_last()), events.last(), terms);
    }
}

/// Whatever comes back, sending a transaction keeps to its terms at every step. In
/// particular it succeeds only with a status that reaches what the request waits for.
pub proof fn law_sending_keeps_its_terms(
    polling_config: RpcPollingConfig,
    request: RpcSendTransactionRequest,
    events: Seq<TxEvent>,
)
    ensures
        keeps(
            run(begin_send(polling_config, request), events),
            Terms {
                polling_config,
                tx_hash: request.signed_transaction.hash,
                account: request.signed_transaction.signer_id,
                finality: request.wait_until,
            },
        ),
{
    lemma_run_keeps(
        begin_send(polling_config, request),
        events,
        Terms {
            polling_config,
            tx_hash: request.signed_transaction.hash,
            account: request.signed_transaction.signer_id,
            finality: request.wait_until,
        },
    );
}

/// Whatever comes back, waiting for the status of a transaction keeps to its terms at every
/// step. In particular it succeeds only with a status that reaches the finality.
pub proof fn law_waiting_keeps_its_terms(
    polling_config: RpcPollingConfig,
    tx_info: TransactionInfo,
    finality: TxExecutionStatus,
    fetch_receipt: bool,
    events: Seq<TxEvent>,
)
    ensures
        keeps(
            run(wait_for_status(polling_config, tx_info, finality, fetch_receipt), events),
            Terms {
                polling_config,
                tx_hash: tx_info.tx_hash(),
                account: tx_info.account(),
                finality,
            },
        ),
{
    lemma_run_keeps(
        wait_for_status(polling_config, tx_info, finality, fetch_receipt),
        events,
        Terms {
            polling_config,
            tx_hash: tx_info.tx_hash(),
            account: tx_info.account(),
            finality,
        },
    );
}

/// Sending a transaction until it is final succeeds only with the final status.
pub proof fn law_commit_is_final(
    polling_config: RpcPollingConfig,
    transaction: SignedTransaction,
    events: Seq<TxEvent>,
)
    ensures
        run(
            begin_send(
                polling_config,
                RpcSendTransactionRequest {
                    signed_transaction: transaction,
                    wait_until: TxExecutionStatus::Final,
                },
            ),
            events,
        ) matches TxStep::Done { result: Ok(response) } ==> response.final_execution_status
            == TxExecutionStatus::Final,
{
    law_sending_keeps_its_terms(
        polling_config,
        RpcSendTransactionRequest {
            signed_transaction: transaction,
            wait_until: TxExecutionStatus::Final,
        },
        events,
    );
}

/// Whether what the step waits for is about this transaction, and waiting asks for the receipts
/// or not.
spec fn purpose_is_about(purpose: Purpose, tx_info: TransactionInfo, fetch_receipt: bool) -> bool {
    match purpose {
        Purpose::Send { transaction, .. } => {
            &&& tx_info == TransactionInfo::Transaction(transaction)
            &&& !fetch_receipt
        },
        Purpose::Check { poll } => {
            &&& poll.tx_info == tx_info
            &&& poll.fetch_receipt == fetch_receipt
        },
    }
}

spec fn wait_is_about(step: TxStep, tx_info: TransactionInfo, fetch_receipt: bool) -> bool {
    match step {
        TxStep::Submit { wait, .. } => purpose_is_about(wait.purpose, tx_info, fetch_receipt),
        TxStep::AskExists { wait, .. } => purpose_is_about(
            wait.submission.purpose,
            tx_info,
            fetch_receipt,
        ),
        TxStep::SleepExists { wait, .. } => purpose_is_about(
            wait.submission.purpose,
            tx_info,
            fetch_receipt,
        ),
        TxStep::AskStatus { wait, .. } => {
            &&& wait.tx_info == tx_info
            &&& wait.fetch_receipt == fetch_receipt
        },
        TxStep::SleepStatus { wait, .. } => {
            &&& wait.tx_info == tx_info
            &&& wait.fetch_receipt == fetch_receipt
        },
        _ => true,
    }
}

/// Whether the messages of the step are about this transaction: what is handed to the client is
/// the very transaction, where it is known, and is not marked as forwarded; the status is asked
/// for with the receipts or without, as told, and whether the transaction exists always without.
pub open spec fn is_about(step: TxStep, tx_info: TransactionInfo, fetch_receipt: bool) -> bool {
    match step {
        TxStep::Tell { message, .. } => {
            &&& tx_info == TransactionInfo::Transaction(message.transaction)
            &&& !message.is_forwarded
        },
        TxStep::Submit { message, .. } => {
            &&& tx_info == TransactionInfo::Transaction(message.transaction)
            &&& !message.is_forwarded
        },
        TxStep::AskStatus { message, .. } => message.fetch_receipt == fetch_receipt,
        TxStep::AskExists { message, .. } => !message.fetch_receipt,
        _ => true,
    }
}

proof fn lemma_run_is_about(
    step: TxStep,
    events: Seq<TxEvent>,
    tx_info: TransactionInfo,
    fetch_receipt: bool,
)
    requires
        is_about(step, tx_info, fetch_receipt),
        wait_is_about(step, tx_info, fetch_receipt),
    ensures
        is_about(run(step, events), tx_info, fetch_receipt),
        wait_is_about(run(step, events), tx_info, fetch_receipt),
    decreases events.len(),
{
    if events.len() > 0 {
        lemma_run_is_about(step, events.drop_last(), tx_info, fetch_receipt);
    }
}

/// A transaction is put on its way once: the first step does it, and no later one. Every message
/// that hands a transaction to the client, whether to send it or to have it looked at, carries
/// the very transaction of the request and is not marked as forwarded.
pub proof fn law_sent_once(
    polling_config: RpcPollingConfig,
    request: RpcSendTransactionRequest,
    events: Seq<TxEvent>,
)
    requires
        can_run(begin_send(polling_config, request), events),
    ensures
        sends(run(begin_send(polling_config, request), events)) <==> events.len() == 0,
        is_about(
            run(begin_send(polling_config, request), events),
            TransactionInfo::Transaction(request.signed_transaction),
            false,
        ),
{
    if events.len() > 0 {
        assert(fits(
            run(begin_send(polling_config, request), events.drop_last()),
            events.last(),
        ));
    }
    lemma_run_is_about(
        begin_send(polling_config, request),
        events,
        TransactionInfo::Transaction(request.signed_transaction),
        false,
    );
}

/// Whether the step is one of waiting for the status, with everything that is done meanwhile.
spec fn is_waiting(step: TxStep) -> bool {
    &&& step is Done || limited(step) is Some
    &&& step matches TxStep::Submit { message, .. } ==> message.check_only
}

proof fn lemma_run_waits(step: TxStep, events: Seq<TxEvent>)
    requires
        is_waiting(step),
    ensures
        is_waiting(run(step, events)),
    decreases events.len(),
{
    if events.len() > 0 {
        lemma_run_waits(step, events.drop_last());
    }
}

/// Waiting for the status of a transaction never puts it on its way, whatever comes back. A
/// message hands a transaction to the client only to have it looked at, only where the
/// transaction itself is known, and then it carries that very transaction and is not marked as
/// forwarded.
pub proof fn law_waiting_never_sends(
    polling_config: RpcPollingConfig,
    tx_info: TransactionInfo,
    finality: TxExecutionStatus,
    fetch_receipt: bool,
    events: Seq<TxEvent>,
)
    ensures
        ({
            let step = run(
                wait_for_status(polling_config, tx_info, finality, fetch_receipt),
                events,
            );
            &&& !sends(step)
            &&& !(step is Tell)
            &&& step matches TxStep::Submit { message, .. } ==> {
                &&& message.check_only
                &&& !message.is_forwarded
                &&& tx_info == TransactionInfo::Transaction(message.transaction)
            }
            &&& is_about(step, tx_info, fetch_receipt)
        }),
{
    let start = wait_for_status(polling_config, tx_info, finality, fetch_receipt);
    lemma_run_waits(start, events);
    lemma_run_is_about(start, events, tx_info, fetch_receipt);
}

/// Whether the event leaves it open whether a transaction exists.
pub open spec fn leaves_open(event: TxEvent) -> bool {
    match event {
        TxEvent::Slept => true,
        TxEvent::Status(Ok(view)) => view.execution_outcome is None,
        TxEvent::Status(Err(error)) => !(error is UnknownTransaction),
        _ => false,
    }
}

/// What follows where a transaction is refused for its nonce.
pub open spec fn refused_for_nonce(wait: Submission, info: Value) -> TxStep {
    after_reply(
        wait,
        Ok(ProcessTxResponse::InvalidTx(InvalidTxError::InvalidNonce { info })),
    )
}

proof fn lemma_goes_on_looking(wait: Submission, info: Value, looks: Seq<TxEvent>)
    requires
        can_run(refused_for_nonce(wait, info), looks),
        forall|i: int| 0 <= i < looks.len() ==> leaves_open(#[trigger] looks[i]),
    ensures
        ({
            let check = ExistsCheck {
                submission: wait,
                response: ProcessTxResponse::InvalidTx(InvalidTxError::InvalidNonce { info }),
            };
            match run(refused_for_nonce(wait, info), looks) {
                TxStep::AskExists { wait: later, .. } => later == check,
                TxStep::SleepExists { wait: later, .. } => later == check,
                _ => false,
            }
        }),
    decreases looks.len(),
{
    if looks.len() > 0 {
        assert forall|i: int| 0 <= i < looks.drop_last().len() implies leaves_open(
            #[trigger] looks.drop_last()[i],
        ) by {
            assert(looks.drop_last()[i] == looks[i]);
        }
        lemma_goes_on_looking(wait, info, looks.drop_last());
        assert(leaves_open(looks[looks.len() - 1]));
    }
}

/// Sending a transaction again is as good as sending it for the first time: refused for its
/// nonce, it is looked for, and once it is found on the chain, however many looks that takes,
/// the conversation goes on as it does for a valid transaction.
pub proof fn law_sending_again_is_idempotent(
    wait: Submission,
    info: Value,
    looks: Seq<TxEvent>,
    outcome: Value,
    status: TxExecutionStatus,
)
    requires
        can_run(refused_for_nonce(wait, info), looks),
        forall|i: int| 0 <= i < looks.len() ==> leaves_open(#[trigger] looks[i]),
        run(refused_for_nonce(wait, info), looks) is AskExists,
    ensures
        next(
            run(refused_for_nonce(wait, info), looks),
            TxEvent::Status(Ok(TxStatusView { execution_outcome: Some(outcome), status })),
        ) == after_reply(wait, Ok(ProcessTxResponse::ValidTx)),
{
    lemma_goes_on_looking(wait, info, looks);
}

/// A transaction that is refused for its nonce and turns out not to be on the chain either,
/// however many looks that takes, is refused.
pub proof fn law_used_nonce_is_refused(
    wait: Submission,
    info: Value,
    looks: Seq<TxEvent>,
    requested_transaction_hash: CryptoHash,
)
    requires
        can_run(refused_for_nonce(wait, info), looks),
        forall|i: int| 0 <= i < looks.len() ==> leaves_open(#[trigger] looks[i]),
        run(refused_for_nonce(wait, info), looks) is AskExists,
    ensures
        next(
            run(refused_for_nonce(wait, info), looks),
            TxEvent::Status(
                Err(RpcTransactionError::UnknownTransaction { requested_transaction_hash }),
            ),
        ) == (TxStep::Done {
            result: Err(
                RpcTransactionError::InvalidTransaction {
                    context: InvalidTxError::InvalidNonce { info },
                },
            ),
        }),
{
    lemma_goes_on_looking(wait, info, looks);
}

/// Waiting for the status of a transaction can always be ended: as long as it goes on, the
/// time limit on it runs, and when that is reached the request is answered with an error.
pub proof fn law_waiting_can_be_ended(
    polling_config: RpcPollingConfig,
    tx_info: TransactionInfo,
    finality: TxExecutionStatus,
    fetch_receipt: bool,
    events: Seq<TxEvent>,
)
    requires
        can_run(wait_for_status(polling_config, tx_info, finality, fetch_receipt), events),
    ensures
        ({
            let step = run(
                wait_for_status(polling_config, tx_info, finality, fetch_receipt),
                events,
            );
            step is Done || (fits(step, TxEvent::StatusTimeout) && next(
                step,
                TxEvent::StatusTimeout,
            ) matches TxStep::Done { result: Err(_) })
        }),
{
    lemma_run_waits(wait_for_status(polling_config, tx_info, finality, fetch_receipt), events);
}

/// The time limit on waiting for the status begins with the first message, and never anew.
pub proof fn law_waiting_limit_begins_once(
    polling_config: RpcPollingConfig,
    tx_info: TransactionInfo,
    finality: TxExecutionStatus,
    fetch_receipt: bool,
    events: Seq<TxEvent>,
)
    requires
        can_run(wait_for_status(polling_config, tx_info, finality, fetch_receipt), events),
    ensures
        run(wait_for_status(polling_config, tx_info, finality, fetch_receipt), events) matches
            TxStep::AskStatus { time_limit: Some(_), .. } <==> events.len() == 0,
{
    let start = wait_for_status(polling_config, tx_info, finality, fetch_receipt);
    if events.len() > 0 {
        lemma_run_waits(start, events.drop_last());
        assert(fits(run(start, events.drop_last()), events.last()));
    }
}

/// Whether the step is one of sending a transaction that the client has said something of.
spec fn is_under_limit(step: TxStep) -> bool {
    is_waiting(step) || step is AskExists || step is SleepExists
}

proof fn lemma_run_is_under_limit(step: TxStep, events: Seq<TxEvent>)
    requires
        step is Tell || step is Submit,
        can_run(step, events),
        events.len() > 0,
    ensures
        is_under_limit(run(step, events)),
    decreases events.len(),
{
    if events.len() > 1 {
        lemma_run_is_under_limit(step, events.drop_last());
    } else {
        assert(run(step, events.drop_last()) == step);
    }
    assert(fits(run(step, events.drop_last()), events.last()));
}

/// Once the client has said something of it, sending a transaction can always be ended: as long
/// as it goes on, the time limit on waiting for the status runs or the one on finding out
/// whether the transaction exists, and when that is reached the request is answered with an
/// error.
pub proof fn law_sending_can_be_ended(
    polling_config: RpcPollingConfig,
    request: RpcSendTransactionRequest,
    events: Seq<TxEvent>,
)
    requires
        can_run(begin_send(polling_config, request), events),
        events.len() > 0,
    ensures
        ({
            let step = run(begin_send(polling_config, request), events);
            ||| step is Done
            ||| fits(step, TxEvent::StatusTimeout) && (next(step, TxEvent::StatusTimeout) matches
                TxStep::Done { result: Err(_) })
            ||| fits(step, TxEvent::ExistsTimeout) && (next(step, TxEvent::ExistsTimeout) matches
                TxStep::Done { result: Err(_) })
        }),
{
    lemma_run_is_under_limit(begin_send(polling_config, request), events);
}

} // verus!
