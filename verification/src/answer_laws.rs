//! What each thing that comes back means for the answer to a request.
use crate::config::{nanoseconds, RpcPollingConfig};
use crate::dispatch::{call_begins, Message, MethodCall, Processing, RpcMessage};
use crate::errors::{
    HandlerError, MailboxError, RpcError, RpcParseError, RpcQueryError, SerializeError,
};
use crate::handler::JsonRpcHandler;
use crate::json::{json, Json};
use crate::methods::{AdversarialMethod, BasicMethod, Method};
use crate::node::{
    ClientMessage, NetworkAdversarialMessage, SandboxMessage, SandboxResponse, ViewClientMessage,
};
use crate::primitives::{
    BlockHeight, CryptoHash, RpcTransactionError, TxExecutionStatus,
};
use crate::query::{
    block_not_found, process_query_response, QueryOutcome, RpcQueryRequest, RpcQueryResponse,
};
use crate::request_laws::{follows, is_run, RpcEvent};
use crate::requests::{
    suits, Answer, AwaitBlock, AwaitBlockProof, AwaitExplanation, AwaitOutcome, AwaitParams,
    AwaitQuery, AwaitReceipt, AwaitReply, AwaitSandbox, AwaitSerialized, AwaitSpread, AwaitStore,
    AwaitTold, AwaitTransaction, AwaitWindows, BlockProof, ExecutionOutcome, Params, RpcResponse,
    RpcStep, SandboxPoll, SandboxTask,
};
use crate::transactions::{
    begin_send, wait_for_status, ProcessTxRequest, RpcSendTransactionRequest,
    RpcTransactionResponse, TxStep,
};
use serde_json::Value;
use std::ops::Range;
use std::time::Duration;
use vstd::prelude::*;

verus! {

/// The error that the request is answered with, if it is.
pub open spec fn error_of(step: RpcStep) -> Option<RpcError> {
    match step {
        RpcStep::Done { response: Err(error), .. } => Some(error),
        _ => None,
    }
}

/// The result that the request is answered with, if it is.
pub open spec fn result_of(step: RpcStep) -> Option<Value> {
    match step {
        RpcStep::Done { response: Ok(value), .. } => Some(value),
        _ => None,
    }
}

/// Whether the reply to a query is an error that callers expect as a result.
pub open spec fn is_expected_as_result(error: RpcQueryError) -> bool {
    error is ContractExecutionError || error is UnknownAccessKey
}

/// Whether the reply to a query is that a block, named directly, is not there.
pub open spec fn is_of_missing_block(error: RpcQueryError) -> bool {
    match error {
        RpcQueryError::UnknownBlock { block_reference } => block_reference is BlockId,
        _ => false,
    }
}

/// Whether the step is one of moving the chain of a node that runs alone forward.
pub open spec fn is_fast_forward(step: RpcStep) -> bool {
    match step {
        RpcStep::PollSandbox { wait, .. } => wait.task is FastForward,
        RpcStep::SleepSandbox { wait, .. } => wait.task is FastForward,
        _ => false,
    }
}

/// Whether the reply says that a task of a node that runs alone is done.
pub open spec fn is_word_of_end(
    fast_forward: bool,
    reply: Result<SandboxResponse, MailboxError>,
) -> bool {
    match reply {
        Ok(SandboxResponse::PatchStateFinished(finished)) => finished && !fast_forward,
        Ok(SandboxResponse::FastForwardFinished(finished)) => finished && fast_forward,
        _ => false,
    }
}

/// Whether a request that waits at this step fails on the event.
pub open spec fn fails_on(step: RpcStep, event: RpcEvent) -> bool {
    match event {
        RpcEvent::Params(params) => params is Err,
        RpcEvent::Transaction(result) => result is Err,
        RpcEvent::Reply(reply) => reply is Err,
        RpcEvent::Block(reply) => reply is Err,
        RpcEvent::Receipt(reply) => reply is Err || reply == Ok::<Option<Value>, Value>(None),
        RpcEvent::Outcome(reply) => reply is Err,
        RpcEvent::BlockProof(reply) => reply is Err,
        RpcEvent::Windows(reply) => reply is Err,
        RpcEvent::Query(reply) => reply matches Err(error) && !is_expected_as_result(error)
            && !is_of_missing_block(error),
        RpcEvent::Store(reply) => reply is Err || reply == Ok::<Option<Value>, MailboxError>(None),
        RpcEvent::SandboxBegun(reply) => reply is Err,
        RpcEvent::Sandbox(reply) => is_fast_forward(step) && (reply matches Ok(response)
            && response is FastForwardFailed),
        RpcEvent::TimedOut => true,
        RpcEvent::Serialized(value) => value is Err || step is Explain,
        RpcEvent::Told => false,
        RpcEvent::Spread => false,
        RpcEvent::Slept => false,
    }
}

/// Whether the error tells what the event was.
pub open spec fn is_told_by(event: RpcEvent, error: RpcError) -> bool {
    match event {
        RpcEvent::Params(Err(reason)) => error == RpcError::InvalidParams(reason),
        RpcEvent::Transaction(Err(reason)) => error == RpcError::Handler(
            HandlerError::Transaction(reason),
        ),
        RpcEvent::Reply(Err(info)) => error == RpcError::Handler(HandlerError::Node { info }),
        RpcEvent::Block(Err(info)) => error == RpcError::Handler(HandlerError::Node { info }),
        RpcEvent::Receipt(Err(info)) => error == RpcError::Handler(HandlerError::Node { info }),
        RpcEvent::Receipt(Ok(None)) => error matches RpcError::Handler(reason)
            && reason is UnknownReceipt,
        RpcEvent::Outcome(Err(info)) => error == RpcError::Handler(HandlerError::Node { info }),
        RpcEvent::BlockProof(Err(info)) => error == RpcError::Handler(HandlerError::Node { info }),
        RpcEvent::Windows(Err(info)) => error == RpcError::Handler(HandlerError::Node { info }),
        RpcEvent::SandboxBegun(Err(info)) => error == RpcError::Handler(
            HandlerError::Node { info },
        ),
        RpcEvent::Query(Err(reason)) => error == RpcError::Handler(HandlerError::Query(reason)),
        RpcEvent::Store(_) => error == RpcError::ServerError,
        RpcEvent::Sandbox(Ok(SandboxResponse::FastForwardFailed { error: reason })) => {
            error matches RpcError::Handler(HandlerError::SandboxFastForward { error_message })
                && error_message@ == "sandbox failed to fast forward due to: "@ + reason@
        },
        RpcEvent::TimedOut => error matches RpcError::Handler(
            HandlerError::SandboxFastForward { error_message },
        ) && error_message@ == "sandbox failed to fast forward within reasonable time of an hour"@,
        RpcEvent::Serialized(Ok(value)) => error matches RpcError::InternalOrHandlerError {
            error_data: Some(_),
            error_struct,
        } && error_struct == value,
        RpcEvent::Serialized(Err(reason)) => match error {
            RpcError::SerializationError { message } => message == reason.display,
            RpcError::InternalError { error_data, info } => error_data is None && info@
                == "Failed to serialize RpcQueryError: "@ + reason.debug@,
            _ => false,
        },
        _ => false,
    }
}

/// A request fails exactly where something came back that is a failure, and the error tells that
/// very failure.
pub proof fn law_failures_tell_their_cause(
    polling_config: RpcPollingConfig,
    step: RpcStep,
    event: RpcEvent,
    later: RpcStep,
)
    requires
        follows(polling_config, step, event, later),
    ensures
        error_of(later) is Some <==> fails_on(step, event),
        error_of(later) matches Some(error) ==> is_told_by(event, error),
        step matches RpcStep::AskReceipt { wait, .. } ==> (event == RpcEvent::Receipt(Ok(None))
            ==> error_of(later) == Some(
            RpcError::Handler(HandlerError::UnknownReceipt { receipt_id: wait.receipt_id }),
        )),
        step matches RpcStep::Explain { wait, .. } ==> (error_of(later) matches Some(
            RpcError::InternalOrHandlerError { error_data, .. },
        ) ==> error_data == Some(wait.error_data)),
        step is Explain ==> !(error_of(later) matches Some(error) && error is SerializationError),
        step is Serialize ==> !(error_of(later) matches Some(error) && error is InternalError),
{
}

/// Whether a request that waits at this step has its response on the event, which is then
/// serialised.
pub open spec fn responds_on(step: RpcStep, event: RpcEvent) -> bool {
    match event {
        RpcEvent::Params(params) => params is Ok && (step matches RpcStep::Parse { wait, .. }
            && wait.method == Method::Basic(BasicMethod::ExperimentalGenesisConfig)),
        RpcEvent::Transaction(result) => result is Ok,
        RpcEvent::Told => true,
        RpcEvent::Reply(reply) => reply is Ok,
        RpcEvent::Receipt(reply) => reply matches Ok(receipt) && receipt is Some,
        RpcEvent::BlockProof(reply) => reply is Ok,
        RpcEvent::Windows(reply) => reply is Ok,
        RpcEvent::Query(reply) => reply is Ok,
        RpcEvent::Store(reply) => reply matches Ok(stored) && stored is Some,
        RpcEvent::Sandbox(reply) => is_word_of_end(is_fast_forward(step), reply),
        _ => false,
    }
}

/// Whether the response is made of what came back, and of nothing else but what the step knew.
pub open spec fn is_made_of(response: RpcResponse, step: RpcStep, event: RpcEvent) -> bool {
    match event {
        RpcEvent::Params(_) => response is GenesisConfig,
        RpcEvent::Transaction(Ok(ended)) => response == RpcResponse::Transaction(ended),
        RpcEvent::Told => response matches RpcResponse::TransactionHash { hash } && (step matches
            RpcStep::Tell { wait, .. } && hash == wait.hash.base58),
        RpcEvent::Reply(Ok(replied)) => {
            &&& response matches RpcResponse::Reply { answer, value }
            &&& value == replied
            &&& match step {
                RpcStep::AskClient { wait, .. } => answer == wait.answer,
                RpcStep::AskViewClient { wait, .. } => answer == wait.answer,
                _ => false,
            }
        },
        RpcEvent::Receipt(Ok(Some(receipt))) => response matches RpcResponse::Receipt {
            receipt_view,
        } && receipt_view == receipt,
        RpcEvent::BlockProof(Ok(place)) => {
            &&& response matches RpcResponse::LightClientProof {
                outcome_proof,
                outcome_root_proof,
                block_header_lite,
                block_proof,
            }
            &&& block_header_lite == place.block_header_lite
            &&& block_proof == place.proof
            &&& step matches RpcStep::AskBlockProof { wait, .. } && outcome_proof
                == wait.outcome_proof && outcome_root_proof == wait.outcome_root_proof
        },
        RpcEvent::Windows(Ok(ranges)) => {
            &&& response matches RpcResponse::MaintenanceWindows { windows }
            &&& windows@.len() == ranges@.len()
            &&& forall|i: int|
                0 <= i < ranges@.len() ==> (#[trigger] windows@[i]).0 == ranges@[i].start
                    && windows@[i].1 == ranges@[i].end
        },
        RpcEvent::Query(Ok(replied)) => response == RpcResponse::Query(replied),
        RpcEvent::Store(Ok(Some(stored))) => response matches RpcResponse::Stored { value }
            && value == stored,
        RpcEvent::Sandbox(_) => if is_fast_forward(step) {
            response is SandboxFastForward
        } else {
            response is SandboxPatchState
        },
        _ => false,
    }
}

/// A request has its response exactly where something came back that is one, and the response is
/// made of what came back as it is.
pub proof fn law_responses_are_what_came_back(
    polling_config: RpcPollingConfig,
    step: RpcStep,
    event: RpcEvent,
    later: RpcStep,
)
    requires
        follows(polling_config, step, event, later),
    ensures
        later is Serialize <==> responds_on(step, event),
        later matches RpcStep::Serialize { response, .. } ==> is_made_of(response, step, event),
{
    if let RpcEvent::Windows(Ok(ranges)) = event {
        let windows = later->Serialize_response->windows;
        assert(windows@ =~= Seq::new(ranges@.len(), |i: int| (ranges@[i].start, ranges@[i].end)));
    }
}

/// The result of a request is what its response was serialised to. Only a message that is spread
/// is answered at once, with the empty text, and so is a query whose error callers expect as a
/// result.
pub proof fn law_results_are_what_was_serialised(
    polling_config: RpcPollingConfig,
    step: RpcStep,
    event: RpcEvent,
    later: RpcStep,
)
    requires
        follows(polling_config, step, event, later),
    ensures
        result_of(later) is Some <==> match event {
            RpcEvent::Serialized(value) => value is Ok && step is Serialize,
            RpcEvent::Spread => true,
            RpcEvent::Query(reply) => reply matches Err(error) && is_expected_as_result(error),
            _ => false,
        },
        event matches RpcEvent::Serialized(Ok(document)) ==> (step is Serialize ==> result_of(later)
            == Some(document)),
        event is Spread ==> (result_of(later) matches Some(value) && json(value) == Json::Text(
            Seq::empty(),
        )),
{
}

/// Whether the value is what a failed query is reported as: an object with the error as a text,
/// no logs, the height and the hash of the block, and nothing else.
pub open spec fn reports(
    value: Value,
    error: Seq<char>,
    block_height: BlockHeight,
    block_hash: Seq<char>,
) -> bool {
    &&& json(value) matches Json::Object(fields)
    &&& forall|key: Seq<char>|
        fields.contains_key(key) <==> (key == "error"@ || key == "logs"@ || key == "block_height"@
            || key == "block_hash"@)
    &&& fields["error"@] == Json::Text(error)
    &&& fields["logs"@] matches Json::List(logs) && logs.len() == 0
    &&& fields["block_height"@] == Json::Integer(block_height as int)
    &&& fields["block_hash"@] == Json::Text(block_hash)
}

/// What a query comes to. The response of the node is serialised. A failed contract and an
/// unknown access key are a result that reports the error. A block that is not there is an error
/// with a text beside it, and is serialised first. Any other error is the answer as it is.
pub proof fn law_what_a_query_comes_to(
    polling_config: RpcPollingConfig,
    message: ViewClientMessage,
    wait: AwaitQuery,
    reply: Result<RpcQueryResponse, RpcQueryError>,
    later: RpcStep,
)
    requires
        follows(
            polling_config,
            RpcStep::AskQuery { message, wait },
            RpcEvent::Query(reply),
            later,
        ),
    ensures
        match reply {
            Ok(response) => later matches RpcStep::Serialize { response: serialised, .. }
                && serialised == RpcResponse::Query(response),
            Err(RpcQueryError::ContractExecutionError { vm_error, block_height, block_hash }) => {
                result_of(later) matches Some(value) && reports(
                    value,
                    vm_error@,
                    block_height,
                    block_hash.base58@,
                )
            },
            Err(RpcQueryError::UnknownAccessKey { public_key, block_height, block_hash }) => {
                result_of(later) matches Some(value) && reports(
                    value,
                    "access key "@ + public_key@ + " does not exist while viewing"@,
                    block_height,
                    block_hash.base58@,
                )
            },
            Err(error) => if is_of_missing_block(error) {
                later matches RpcStep::Explain { error: explained, wait: explanation } && explained
                    == error && json(explanation.error_data) == Json::Text(
                    block_not_found(error->block_reference->BlockId_0),
                )
            } else {
                error_of(later) == Some(RpcError::Handler(HandlerError::Query(error)))
            },
        },
{
    lemma_document_keys();
}

proof fn lemma_document_keys()
    ensures
        "error"@ != "logs"@,
        "error"@ != "block_height"@,
        "error"@ != "block_hash"@,
        "logs"@ != "block_height"@,
        "logs"@ != "block_hash"@,
        "block_height"@ != "block_hash"@,
{
    reveal_strlit("error");
    reveal_strlit("logs");
    reveal_strlit("block_height");
    reveal_strlit("block_hash");
    assert("error"@.len() == 5);
    assert("logs"@.len() == 4);
    assert("block_height"@.len() == 12);
    assert("block_hash"@.len() == 10);
}

/// Whatever the reply to a query, the request goes where `process_query_response` says.
pub proof fn law_queries_go_by_their_processing(
    polling_config: RpcPollingConfig,
    message: ViewClientMessage,
    wait: AwaitQuery,
    reply: Result<RpcQueryResponse, RpcQueryError>,
    outcome: QueryOutcome,
    later: RpcStep,
)
    requires
        call_ensures(process_query_response, (reply,), outcome),
        follows(
            polling_config,
            RpcStep::AskQuery { message, wait },
            RpcEvent::Query(reply),
            later,
        ),
    ensures
        match outcome {
            QueryOutcome::Respond { response } => later matches RpcStep::Serialize {
                response: serialised,
                ..
            } && serialised == RpcResponse::Query(response),
            QueryOutcome::Explain { error, error_data } => later matches RpcStep::Explain {
                error: explained,
                wait: explanation,
            } && explained == error && json(explanation.error_data) == json(error_data),
            QueryOutcome::Ready { result: Ok(value) } => result_of(later) matches Some(answered)
                && json(answered) == json(value),
            QueryOutcome::Ready { result: Err(error) } => error_of(later) == Some(error),
        },
{
}

/// What further questions a request leads to: the changes of the block whose hash the node
/// named, and the place of the block that the outcome is in.
pub proof fn law_further_questions(
    polling_config: RpcPollingConfig,
    step: RpcStep,
    event: RpcEvent,
    later: RpcStep,
)
    requires
        follows(polling_config, step, event, later),
    ensures
        event matches RpcEvent::Block(Ok(block_hash)) ==> (step matches RpcStep::AskBlock {
            wait,
            ..
        } && later matches RpcStep::AskViewClient { message, wait: reply } && match (
            wait.state_changes_request
        ) {
            Some(kind) => message == (ViewClientMessage::GetStateChanges {
                block_hash,
                state_changes_request: kind,
            }) && reply.answer == (Answer::Changes { block_hash }),
            None => message == (ViewClientMessage::GetStateChangesInBlock { block_hash })
                && reply.answer == (Answer::ChangesInBlock { block_hash }),
        }),
        event matches RpcEvent::Outcome(Ok(outcome)) ==> (step matches RpcStep::AskOutcome {
            wait,
            ..
        } && later matches RpcStep::AskBlockProof { message, wait: place } && message == (
        ViewClientMessage::GetBlockProof {
            block_hash: outcome.block_hash,
            head_block_hash: wait.light_client_head,
        }) && place.outcome_proof == outcome.outcome_proof && place.outcome_root_proof
            == outcome.outcome_root_proof),
{
}

/// Whether the message asks whether the task is done.
pub open spec fn asks_for_end(message: ClientMessage, task: SandboxTask) -> bool {
    match message {
        ClientMessage::Sandbox(SandboxMessage::PatchStateStatus) => task is PatchState,
        ClientMessage::Sandbox(SandboxMessage::FastForwardStatus) => task is FastForward,
        _ => false,
    }
}

/// How a task of a node that runs alone goes on. Once the client has it, it is asked whether the
/// task is done, and the time limit begins: an hour for moving the chain forward, and the polling
/// timeout otherwise. As long as the reply is neither the end nor a failure, the same question is
/// asked again after a sleep.
pub proof fn law_sandbox_tasks_are_waited_for(
    polling_config: RpcPollingConfig,
    step: RpcStep,
    event: RpcEvent,
    later: RpcStep,
)
    requires
        follows(polling_config, step, event, later),
    ensures
        step matches RpcStep::AskSandbox { wait, .. } ==> (event == RpcEvent::SandboxBegun(Ok(()))
            ==> {
            &&& later matches RpcStep::PollSandbox { message, time_limit, wait: poll }
            &&& asks_for_end(message, wait.task)
            &&& poll.task == wait.task
            &&& poll.polling_config == wait.polling_config
            &&& time_limit matches Some(limit)
            &&& wait.task is PatchState ==> limit == wait.polling_config.polling_timeout
            &&& wait.task is FastForward ==> nanoseconds(limit) == 3_600_000_000_000
        }),
        step matches RpcStep::PollSandbox { wait, .. } ==> (event is Sandbox && !responds_on(
            step,
            event,
        ) && !fails_on(step, event) ==> {
            &&& later matches RpcStep::SleepSandbox { interval, wait: poll }
            &&& interval == wait.polling_config.polling_interval
            &&& poll == wait
        }),
        step matches RpcStep::SleepSandbox { wait, .. } ==> (event is Slept ==> {
            &&& later matches RpcStep::PollSandbox { message, time_limit, wait: poll }
            &&& asks_for_end(message, wait.task)
            &&& time_limit is None
            &&& poll == wait
        }),
{
}

/// The answer of a method that asks the node one question and passes the reply on.
pub open spec fn answer_of(method: BasicMethod) -> Option<Answer> {
    match method {
        BasicMethod::Block => Some(Answer::Block),
        BasicMethod::Chunk => Some(Answer::Chunk),
        BasicMethod::GasPrice => Some(Answer::GasPrice),
        BasicMethod::Health => Some(Answer::Health),
        BasicMethod::NextLightClientBlock => Some(Answer::NextLightClientBlock),
        BasicMethod::NetworkInfo => Some(Answer::NetworkInfo),
        BasicMethod::Status => Some(Answer::Status),
        BasicMethod::Validators => Some(Answer::Validators),
        BasicMethod::ClientConfig => Some(Answer::ClientConfig),
        BasicMethod::ExperimentalProtocolConfig => Some(Answer::ProtocolConfig),
        BasicMethod::ExperimentalValidatorsOrdered => Some(Answer::ValidatorsOrdered),
        BasicMethod::ExperimentalSplitStorageInfo => Some(Answer::SplitStorageInfo),
        BasicMethod::Provider => Some(Answer::Provider),
        _ => None,
    }
}

/// Whether the question to the view client is about what the parameters name.
pub open spec fn is_about(message: ViewClientMessage, params: Params) -> bool {
    match (message, params) {
        (
            ViewClientMessage::GetBlock { block_reference: asked },
            Params::Block { block_reference },
        ) => asked == block_reference,
        (
            ViewClientMessage::GetBlock { block_reference: asked },
            Params::Changes { block_reference, .. },
        ) => asked == block_reference,
        (
            ViewClientMessage::GetBlock { block_reference: asked },
            Params::ChangesInBlock { block_reference },
        ) => asked == block_reference,
        (
            ViewClientMessage::GetProtocolConfig { block_reference: asked },
            Params::ProtocolConfig { block_reference },
        ) => asked == block_reference,
        (
            ViewClientMessage::GetChunk { chunk_reference: asked },
            Params::Chunk { chunk_reference },
        ) => asked == chunk_reference,
        (ViewClientMessage::GetGasPrice { block_id: asked }, Params::GasPrice { block_id }) => asked
            == block_id,
        (
            ViewClientMessage::GetValidatorOrdered { block_id: asked },
            Params::ValidatorsOrdered { block_id },
        ) => asked == block_id,
        (
            ViewClientMessage::GetNextLightClientBlock { last_block_hash: asked },
            Params::NextLightClientBlock { last_block_hash },
        ) => asked == last_block_hash,
        (
            ViewClientMessage::GetExecutionOutcome { id: asked },
            Params::LightClientProof { id, .. },
        ) => asked == id,
        (
            ViewClientMessage::GetValidatorInfo { epoch_reference: asked },
            Params::Validators { epoch_reference },
        ) => asked == epoch_reference,
        (
            ViewClientMessage::GetProvider { epoch_id: asked, block_height: at },
            Params::Provider { epoch_id, block_height },
        ) => asked == epoch_id && at == block_height,
        (
            ViewClientMessage::GetReceipt { receipt_id: asked },
            Params::Receipt { receipt_id },
        ) => asked == receipt_id,
        (
            ViewClientMessage::GetMaintenanceWindows { account_id: asked },
            Params::MaintenanceWindows { account_id },
        ) => asked == account_id,
        (
            ViewClientMessage::Query { block_reference, request },
            Params::Query(query),
        ) => block_reference == query.block_reference && request == query.request,
        (ViewClientMessage::GetSplitStorageInfo, Params::Empty) => true,
        _ => false,
    }
}

/// Whether the client is asked what the method is for.
pub open spec fn is_for(message: ClientMessage, method: BasicMethod) -> bool {
    match message {
        ClientMessage::Status { is_health_check, detailed } => {
            &&& !detailed
            &&& is_health_check <==> method is Health
            &&& method is Health || method is Status
        },
        ClientMessage::GetNetworkInfo => method is NetworkInfo,
        ClientMessage::GetClientConfig => method is ClientConfig,
        _ => false,
    }
}

/// Whether the method has a conversation about a transaction.
pub open spec fn converses(method: BasicMethod) -> bool {
    ||| method is SendTx
    ||| method is BroadcastTxCommit
    ||| method is Tx
    ||| method is ExperimentalTxStatus
}

/// What a method does first with its parameters. It asks the node about what they name, and about
/// nothing else; or begins the conversation about the transaction that they hold; or hands the
/// node the task that they describe.
pub proof fn law_methods_do_what_their_parameters_say(
    polling_config: RpcPollingConfig,
    raw: Value,
    method: BasicMethod,
    metrics_name: String,
    params: Params,
    later: RpcStep,
)
    requires
        follows(
            polling_config,
            RpcStep::Parse {
                params: raw,
                wait: AwaitParams { method: Method::Basic(method), metrics_name },
            },
            RpcEvent::Params(Ok(params)),
            later,
        ),
    ensures
        later is AskClient || later is AskViewClient <==> answer_of(method) is Some,
        later matches RpcStep::AskClient { message, wait } ==> is_for(message, method) && Some(
            wait.answer,
        ) == answer_of(method),
        later matches RpcStep::AskViewClient { message, wait } ==> is_about(message, params)
            && Some(wait.answer) == answer_of(method),
        later is AskBlock <==> method is ExperimentalChanges || method
            is ExperimentalChangesInBlock,
        later matches RpcStep::AskBlock { message, wait } ==> is_about(message, params) && match (
            params
        ) {
            Params::Changes { state_changes_request, .. } => wait.state_changes_request == Some(
                state_changes_request,
            ),
            _ => wait.state_changes_request is None,
        },
        later is AskReceipt <==> method is ExperimentalReceipt,
        later matches RpcStep::AskReceipt { message, wait } ==> is_about(message, params) && (
        params matches Params::Receipt { receipt_id } && wait.receipt_id == receipt_id),
        later is AskOutcome <==> method is LightClientProof || method
            is ExperimentalLightClientProof,
        later matches RpcStep::AskOutcome { message, wait } ==> is_about(message, params) && (
        params matches Params::LightClientProof { light_client_head, .. } && wait.light_client_head
            == light_client_head),
        later is AskWindows <==> method is ExperimentalMaintenanceWindows,
        later matches RpcStep::AskWindows { message, .. } ==> is_about(message, params),
        later is Tell <==> method is BroadcastTxAsync,
        later matches RpcStep::Tell { message, wait } ==> (params matches Params::SendTransaction(
            request,
        ) && message.transaction == request.signed_transaction && !message.is_forwarded
            && !message.check_only && wait.hash == request.signed_transaction.hash),
        later is Transaction <==> converses(method),
        later matches RpcStep::Transaction { step, .. } ==> match params {
            Params::SendTransaction(request) => step == begin_send(
                polling_config,
                RpcSendTransactionRequest {
                    signed_transaction: request.signed_transaction,
                    wait_until: if method is BroadcastTxCommit {
                        TxExecutionStatus::Final
                    } else {
                        request.wait_until
                    },
                },
            ),
            Params::TransactionStatus(request) => step == wait_for_status(
                polling_config,
                request.transaction_info,
                request.wait_until,
                method is ExperimentalTxStatus,
            ),
            _ => false,
        },
        later is AskSandbox <==> method is SandboxPatchState || method is SandboxFastForward,
        later matches RpcStep::AskSandbox { message, wait } ==> wait.polling_config
            == polling_config && match (message, params) {
            (
                ClientMessage::Sandbox(SandboxMessage::PatchState { records: told }),
                Params::SandboxPatchState { records },
            ) => told == records && wait.task is PatchState,
            (
                ClientMessage::Sandbox(SandboxMessage::FastForward { delta_height: told }),
                Params::SandboxFastForward { delta_height },
            ) => told == delta_height && wait.task is FastForward,
            _ => false,
        },
{
}

/// What a query and a method that makes a node misbehave do with their parameters.
pub proof fn law_other_methods_do_what_their_parameters_say(
    polling_config: RpcPollingConfig,
    raw: Value,
    method: Method,
    metrics_name: String,
    params: Params,
    later: RpcStep,
)
    requires
        !(method is Basic),
        follows(
            polling_config,
            RpcStep::Parse { params: raw, wait: AwaitParams { method, metrics_name } },
            RpcEvent::Params(Ok(params)),
            later,
        ),
    ensures
        match method {
            Method::Query => {
                &&& later matches RpcStep::AskQuery { message, wait }
                &&& is_about(message, params)
                &&& params matches Params::Query(query) && wait.metrics_name@
                    == query.request.spec_metrics_name()
            },
            _ => {
                &&& later matches RpcStep::Spread { message, to_view_client, .. }
                &&& match (message, params) {
                    (
                        NetworkAdversarialMessage::AdvProduceBlocks { num_blocks, only_valid },
                        Params::AdvProduceBlocks { num_blocks: asked, only_valid: valid },
                    ) => num_blocks == asked && only_valid == valid && !to_view_client,
                    (
                        NetworkAdversarialMessage::AdvSwitchToHeight { height },
                        Params::AdvSwitchToHeight { height: asked },
                    ) => height == asked && to_view_client,
                    _ => false,
                }
            },
        },
{
}

/// Whether the parameters are of the same shape, whatever they hold.
pub open spec fn is_same_shape(one: Params, other: Params) -> bool {
    &&& one is Empty <==> other is Empty
    &&& one is Block <==> other is Block
    &&& one is Chunk <==> other is Chunk
    &&& one is GasPrice <==> other is GasPrice
    &&& one is LightClientProof <==> other is LightClientProof
    &&& one is NextLightClientBlock <==> other is NextLightClientBlock
    &&& one is SendTransaction <==> other is SendTransaction
    &&& one is TransactionStatus <==> other is TransactionStatus
    &&& one is Validators <==> other is Validators
    &&& one is Changes <==> other is Changes
    &&& one is ChangesInBlock <==> other is ChangesInBlock
    &&& one is ProtocolConfig <==> other is ProtocolConfig
    &&& one is Receipt <==> other is Receipt
    &&& one is ValidatorsOrdered <==> other is ValidatorsOrdered
    &&& one is MaintenanceWindows <==> other is MaintenanceWindows
    &&& one is SandboxPatchState <==> other is SandboxPatchState
    &&& one is SandboxFastForward <==> other is SandboxFastForward
    &&& one is Provider <==> other is Provider
    &&& one is Query <==> other is Query
    &&& one is AdvProduceBlocks <==> other is AdvProduceBlocks
    &&& one is AdvSwitchToHeight <==> other is AdvSwitchToHeight
}

/// Whether parameters suit a method is a matter of their shape alone, and a method takes one
/// shape only.
pub proof fn law_methods_take_one_shape(method: Method, one: Params, other: Params)
    requires
        suits(method, one),
    ensures
        suits(method, other) <==> is_same_shape(one, other),
{
}

/// A call is taken up as one of its method: its parameters are read as they came, under its name.
/// A method that makes a node misbehave and takes no parameters is carried out at once.
pub proof fn law_calls_are_taken_up(
    handler: JsonRpcHandler,
    method: Method,
    call: MethodCall,
    step: RpcStep,
)
    requires
        handler.dispatches(call, step),
        method.name() == call.method@,
        method.is_offered(handler.features),
    ensures
        match step {
            RpcStep::Parse { params, wait } => {
                &&& params == call.params
                &&& wait.method == method
                &&& wait.metrics_name == call.method
                &&& method matches Method::Adversarial(adversarial) ==> adversarial
                    is ProduceBlocks || adversarial is SwitchToHeight
            },
            RpcStep::Spread { message, to_view_client, wait } => {
                &&& to_view_client
                &&& wait.metrics_name == call.method
                &&& match message {
                    NetworkAdversarialMessage::AdvDisableHeaderSync => method
                        == Method::Adversarial(AdversarialMethod::DisableHeaderSync),
                    NetworkAdversarialMessage::AdvDisableDoomslug => method
                        == Method::Adversarial(AdversarialMethod::DisableDoomslug),
                    _ => false,
                }
            },
            RpcStep::AskStore { message, wait } => {
                &&& wait.metrics_name == call.method
                &&& match message {
                    ClientMessage::Adversarial(
                        NetworkAdversarialMessage::AdvGetSavedBlocks,
                    ) => method == Method::Adversarial(AdversarialMethod::GetSavedBlocks),
                    ClientMessage::Adversarial(
                        NetworkAdversarialMessage::AdvCheckStorageConsistency,
                    ) => method == Method::Adversarial(AdversarialMethod::CheckStore),
                    _ => false,
                }
            },
            _ => false,
        },
{
    assert(handler.calls(call, method));
}

/// A call of a method that the node does not offer is refused, and the refusal names it.
pub proof fn law_other_calls_are_refused(handler: JsonRpcHandler, call: MethodCall, step: RpcStep)
    requires
        handler.dispatches(call, step),
        forall|method: Method| #[trigger]
            method.name() == call.method@ ==> !method.is_offered(handler.features),
    ensures
        error_of(step) matches Some(RpcError::MethodNotFound { method }) && method == call.method,
        step matches RpcStep::Done { metrics_name, .. } && metrics_name@ == "UNSUPPORTED_METHOD"@,
{
    assert forall|method: Method| !#[trigger] handler.calls(call, method) by {
        if method.name() == call.method@ {
            assert(!method.is_offered(handler.features));
        }
    }
}

/// A call is handled as its method is. A request is handled as its call is, and answered under
/// its own id. What is no request is answered with an error at once.
pub proof fn law_messages_are_taken_in(
    handler: JsonRpcHandler,
    call: MethodCall,
    step: RpcStep,
    message: Message,
    processing: Processing,
    id: Value,
    result: Result<Value, RpcError>,
    response: RpcMessage,
)
    ensures
        call_ensures(JsonRpcHandler::process_request_internal, (&handler, call), step)
            ==> handler.dispatches(call, step),
        call_ensures(JsonRpcHandler::process, (&handler, message), processing) ==> match message {
            Message::Request(request) => processing matches Processing::Handle { id: kept, step }
                && kept == request.id && handler.dispatches(request.call, step),
            Message::Other => processing matches Processing::Answer(RpcMessage::Error { error })
                && (error matches RpcError::ParseError { message: text } && text@
                == "JSON RPC Request format was expected"@),
        },
        call_ensures(JsonRpcHandler::respond, (id, result), response) ==> (response matches
            RpcMessage::Response { id: kept, result: given } && kept == id && given == result),
{
}

proof fn lemma_step_of_run(
    polling_config: RpcPollingConfig,
    steps: Seq<RpcStep>,
    events: Seq<RpcEvent>,
    i: int,
)
    requires
        is_run(polling_config, steps, events),
        0 <= i < events.len(),
    ensures
        follows(polling_config, steps[i], events[i], steps[i + 1]),
{
}

/// A method that asks the node one question, and has its reply, answers with that very reply:
/// what is serialised is the value of the reply under the answer of the method, and the request
/// succeeds with what it was serialised to.
pub proof fn law_replies_are_passed_on(
    polling_config: RpcPollingConfig,
    method: BasicMethod,
    call: MethodCall,
    params: Params,
    value: Value,
    document: Value,
    steps: Seq<RpcStep>,
    events: Seq<RpcEvent>,
)
    requires
        answer_of(method) is Some,
        is_run(polling_config, steps, events),
        steps[0] == call_begins(Method::Basic(method), call),
        events.len() >= 2,
        events[0] == RpcEvent::Params(Ok(params)),
        events[1] == RpcEvent::Reply(Ok(value)),
    ensures
        match steps[1] {
            RpcStep::AskClient { message, .. } => is_for(message, method),
            RpcStep::AskViewClient { message, .. } => is_about(message, params),
            _ => false,
        },
        steps[2] matches RpcStep::Serialize { response, .. } && response == (RpcResponse::Reply {
            answer: answer_of(method)->0,
            value,
        }),
        events.len() > 2 && events[2] == RpcEvent::Serialized(Ok(document)) ==> result_of(steps[3])
            == Some(document),
{
    let start: int = 0;
    lemma_step_of_run(polling_config, steps, events, start);
    lemma_step_of_run(polling_config, steps, events, start + 1);
    if events.len() > 2 {
        lemma_step_of_run(polling_config, steps, events, start + 2);
    }
}

/// A method that asks the node one question, and is refused, fails with that very refusal.
pub proof fn law_refusals_are_passed_on(
    polling_config: RpcPollingConfig,
    method: BasicMethod,
    call: MethodCall,
    params: Params,
    info: Value,
    steps: Seq<RpcStep>,
    events: Seq<RpcEvent>,
)
    requires
        answer_of(method) is Some,
        is_run(polling_config, steps, events),
        steps[0] == call_begins(Method::Basic(method), call),
        events.len() >= 2,
        events[0] == RpcEvent::Params(Ok(params)),
        events[1] == RpcEvent::Reply(Err(info)),
    ensures
        error_of(steps[2]) == Some(RpcError::Handler(HandlerError::Node { info })),
{
    let start: int = 0;
    lemma_step_of_run(polling_config, steps, events, start);
    lemma_step_of_run(polling_config, steps, events, start + 1);
}

/// A request about a transaction succeeds exactly where its conversation does. What is serialised
/// is the very response that the conversation ended with, whether it has an outcome or not, and
/// the error is the very error that it ended with.
pub proof fn law_requests_end_as_their_conversations(
    polling_config: RpcPollingConfig,
    method: BasicMethod,
    call: MethodCall,
    params: Params,
    result: Result<RpcTransactionResponse, RpcTransactionError>,
    steps: Seq<RpcStep>,
    events: Seq<RpcEvent>,
)
    requires
        converses(method),
        is_run(polling_config, steps, events),
        steps[0] == call_begins(Method::Basic(method), call),
        events.len() >= 2,
        events[0] == RpcEvent::Params(Ok(params)),
        events[1] == RpcEvent::Transaction(result),
    ensures
        match result {
            Ok(ended) => {
                &&& steps[2] matches RpcStep::Serialize { response, .. }
                &&& response == RpcResponse::Transaction(ended)
                &&& events.len() == 3 ==> (events[2] matches RpcEvent::Serialized(value) && match (
                    value
                ) {
                    Ok(document) => result_of(steps[3]) == Some(document),
                    Err(reason) => error_of(steps[3]) == Some(
                        RpcError::SerializationError { message: reason.display },
                    ),
                })
            },
            Err(error) => error_of(steps[2]) == Some(
                RpcError::Handler(HandlerError::Transaction(error)),
            ),
        },
{
    let start: int = 0;
    lemma_step_of_run(polling_config, steps, events, start);
    lemma_step_of_run(polling_config, steps, events, start + 1);
    if events.len() == 3 {
        lemma_step_of_run(polling_config, steps, events, start + 2);
    }
}

/// A transaction that is sent without waiting is answered with its own hash as a text.
pub proof fn law_sent_transactions_are_answered_with_their_hash(
    polling_config: RpcPollingConfig,
    call: MethodCall,
    request: RpcSendTransactionRequest,
    document: Value,
    steps: Seq<RpcStep>,
    events: Seq<RpcEvent>,
)
    requires
        is_run(polling_config, steps, events),
        steps[0] == call_begins(Method::Basic(BasicMethod::BroadcastTxAsync), call),
        events.len() >= 1,
        events[0] == RpcEvent::Params(Ok(Params::SendTransaction(request))),
    ensures
        steps[1] matches RpcStep::Tell { message, .. } && message.transaction
            == request.signed_transaction && !message.check_only,
        events.len() > 1 ==> (steps[2] matches RpcStep::Serialize { response, .. } && response == (
        RpcResponse::TransactionHash { hash: request.signed_transaction.hash.base58 })),
        events.len() > 2 && events[2] == RpcEvent::Serialized(Ok(document)) ==> result_of(steps[3])
            == Some(document),
{
    let start: int = 0;
    lemma_step_of_run(polling_config, steps, events, start);
    if events.len() > 1 {
        lemma_step_of_run(polling_config, steps, events, start + 1);
    }
    if events.len() > 2 {
        lemma_step_of_run(polling_config, steps, events, start + 2);
    }
}

/// A call of `query` whose reply is a failed contract or an unknown access key is never answered
/// with an error: it succeeds with an object that reports it.
pub proof fn law_expected_query_errors_are_results(
    polling_config: RpcPollingConfig,
    call: MethodCall,
    request: RpcQueryRequest,
    error: RpcQueryError,
    steps: Seq<RpcStep>,
    events: Seq<RpcEvent>,
)
    requires
        is_run(polling_config, steps, events),
        steps[0] == call_begins(Method::Query, call),
        events.len() >= 2,
        events[0] == RpcEvent::Params(Ok(Params::Query(request))),
        events[1] == RpcEvent::Query(Err(error)),
        is_expected_as_result(error),
    ensures
        error_of(steps[2]) is None,
        result_of(steps[2]) matches Some(value) && match error {
            RpcQueryError::ContractExecutionError { vm_error, block_height, block_hash } => {
                reports(value, vm_error@, block_height, block_hash.base58@)
            },
            RpcQueryError::UnknownAccessKey { public_key, block_height, block_hash } => reports(
                value,
                "access key "@ + public_key@ + " does not exist while viewing"@,
                block_height,
                block_hash.base58@,
            ),
            _ => false,
        },
{
    let start: int = 0;
    lemma_step_of_run(polling_config, steps, events, start);
    lemma_step_of_run(polling_config, steps, events, start + 1);
    let wait = steps[start + 1]->AskQuery_wait;
    law_what_a_query_comes_to(
        polling_config,
        steps[start + 1]->AskQuery_message,
        wait,
        Err(error),
        steps[start + 2],
    );
}

/// The changes of a block are asked for by the hash that the node named for the block of the
/// request, and the answer holds that hash and those very changes.
pub proof fn law_changes_are_those_of_the_block(
    polling_config: RpcPollingConfig,
    method: BasicMethod,
    call: MethodCall,
    params: Params,
    block_hash: CryptoHash,
    changes: Value,
    steps: Seq<RpcStep>,
    events: Seq<RpcEvent>,
)
    requires
        method is ExperimentalChanges || method is ExperimentalChangesInBlock,
        is_run(polling_config, steps, events),
        steps[0] == call_begins(Method::Basic(method), call),
        events.len() >= 2,
        events[0] == RpcEvent::Params(Ok(params)),
        events[1] == RpcEvent::Block(Ok(block_hash)),
    ensures
        steps[1] matches RpcStep::AskBlock { message, .. } && is_about(message, params),
        steps[2] matches RpcStep::AskViewClient { message, .. } && match (message, params) {
            (
                ViewClientMessage::GetStateChanges { block_hash: asked, state_changes_request },
                Params::Changes { state_changes_request: kind, .. },
            ) => asked == block_hash && state_changes_request == kind,
            (
                ViewClientMessage::GetStateChangesInBlock { block_hash: asked },
                Params::ChangesInBlock { .. },
            ) => asked == block_hash,
            _ => false,
        },
        events.len() > 2 && events[2] == RpcEvent::Reply(Ok(changes)) ==> (steps[3] matches
            RpcStep::Serialize { response, .. } && response == (RpcResponse::Reply {
            answer: if method is ExperimentalChanges {
                Answer::Changes { block_hash }
            } else {
                Answer::ChangesInBlock { block_hash }
            },
            value: changes,
        })),
{
    let start: int = 0;
    lemma_step_of_run(polling_config, steps, events, start);
    lemma_step_of_run(polling_config, steps, events, start + 1);
    if events.len() > 2 {
        lemma_step_of_run(polling_config, steps, events, start + 2);
    }
}

/// The proof for a light client is put together of what the node replied on the outcome and on
/// the place of its block below the head that the request named.
pub proof fn law_light_client_proofs_are_put_together(
    polling_config: RpcPollingConfig,
    method: BasicMethod,
    call: MethodCall,
    id: Value,
    light_client_head: CryptoHash,
    outcome: ExecutionOutcome,
    place: BlockProof,
    steps: Seq<RpcStep>,
    events: Seq<RpcEvent>,
)
    requires
        method is LightClientProof || method is ExperimentalLightClientProof,
        is_run(polling_config, steps, events),
        steps[0] == call_begins(Method::Basic(method), call),
        events.len() >= 2,
        events[0] == RpcEvent::Params(Ok(Params::LightClientProof { id, light_client_head })),
        events[1] == RpcEvent::Outcome(Ok(outcome)),
    ensures
        steps[1] matches RpcStep::AskOutcome { message, .. } && message == (
        ViewClientMessage::GetExecutionOutcome { id }),
        steps[2] matches RpcStep::AskBlockProof { message, .. } && message == (
        ViewClientMessage::GetBlockProof {
            block_hash: outcome.block_hash,
            head_block_hash: light_client_head,
        }),
        events.len() > 2 && events[2] == RpcEvent::BlockProof(Ok(place)) ==> (steps[3] matches
            RpcStep::Serialize { response, .. } && response == (RpcResponse::LightClientProof {
            outcome_proof: outcome.outcome_proof,
            outcome_root_proof: outcome.outcome_root_proof,
            block_header_lite: place.block_header_lite,
            block_proof: place.proof,
        })),
{
    let start: int = 0;
    lemma_step_of_run(polling_config, steps, events, start);
    lemma_step_of_run(polling_config, steps, events, start + 1);
    if events.len() > 2 {
        lemma_step_of_run(polling_config, steps, events, start + 2);
    }
}

/// A receipt is answered as the node replied it, and one that the node does not have is an error
/// that names the receipt of the request.
pub proof fn law_receipts(
    polling_config: RpcPollingConfig,
    call: MethodCall,
    receipt_id: CryptoHash,
    reply: Option<Value>,
    steps: Seq<RpcStep>,
    events: Seq<RpcEvent>,
)
    requires
        is_run(polling_config, steps, events),
        steps[0] == call_begins(Method::Basic(BasicMethod::ExperimentalReceipt), call),
        events.len() >= 2,
        events[0] == RpcEvent::Params(Ok(Params::Receipt { receipt_id })),
        events[1] == RpcEvent::Receipt(Ok(reply)),
    ensures
        steps[1] matches RpcStep::AskReceipt { message, .. } && message == (
        ViewClientMessage::GetReceipt { receipt_id }),
        match reply {
            Some(receipt_view) => steps[2] matches RpcStep::Serialize { response, .. } && response
                == (RpcResponse::Receipt { receipt_view }),
            None => error_of(steps[2]) == Some(
                RpcError::Handler(HandlerError::UnknownReceipt { receipt_id }),
            ),
        },
{
    let start: int = 0;
    lemma_step_of_run(polling_config, steps, events, start);
    lemma_step_of_run(polling_config, steps, events, start + 1);
}

/// What is done with parameters that suit the method, or that could not be read, is the step that
/// follows.
pub proof fn law_parameters_are_carried_out(
    handler: JsonRpcHandler,
    raw: Value,
    wait: AwaitParams,
    params: Result<Params, RpcParseError>,
    later: RpcStep,
)
    ensures
        params matches Ok(read) ==> (suits(wait.method, read) ==> call_requires(
            JsonRpcHandler::process_method_call,
            (&handler, wait, params),
        )),
        params is Err ==> call_requires(
            JsonRpcHandler::process_method_call,
            (&handler, wait, params),
        ),
        call_ensures(JsonRpcHandler::process_method_call, (&handler, wait, params), later) && (
        params matches Ok(read) ==> suits(wait.method, read)) ==> follows(
            handler.polling_config,
            RpcStep::Parse { params: raw, wait },
            RpcEvent::Params(params),
            later,
        ),
{
}

/// What is done with a reply is the step that follows, whoever was asked.
pub proof fn law_replies_are_carried_out(
    polling_config: RpcPollingConfig,
    message: ClientMessage,
    question: ViewClientMessage,
    wait: AwaitReply,
    reply: Result<Value, Value>,
    later: RpcStep,
)
    ensures
        call_ensures(AwaitReply::replied, (wait, reply), later) ==> follows(
            polling_config,
            RpcStep::AskClient { message, wait },
            RpcEvent::Reply(reply),
            later,
        ),
        call_ensures(AwaitReply::replied, (wait, reply), later) ==> follows(
            polling_config,
            RpcStep::AskViewClient { message: question, wait },
            RpcEvent::Reply(reply),
            later,
        ),
{
}

/// What is done with what the view client replies on a block, a receipt, an outcome, the place of
/// a block and the maintenance windows is the step that follows.
pub proof fn law_chain_replies_are_carried_out(
    polling_config: RpcPollingConfig,
    message: ViewClientMessage,
    block: (AwaitBlock, Result<CryptoHash, Value>),
    receipt: (AwaitReceipt, Result<Option<Value>, Value>),
    outcome: (AwaitOutcome, Result<ExecutionOutcome, Value>),
    place: (AwaitBlockProof, Result<BlockProof, Value>),
    windows: (AwaitWindows, Result<Vec<Range<BlockHeight>>, Value>),
    later: RpcStep,
)
    ensures
        call_ensures(AwaitBlock::replied, block, later) ==> follows(
            polling_config,
            RpcStep::AskBlock { message, wait: block.0 },
            RpcEvent::Block(block.1),
            later,
        ),
        call_ensures(AwaitReceipt::replied, receipt, later) ==> follows(
            polling_config,
            RpcStep::AskReceipt { message, wait: receipt.0 },
            RpcEvent::Receipt(receipt.1),
            later,
        ),
        call_ensures(AwaitOutcome::replied, outcome, later) ==> follows(
            polling_config,
            RpcStep::AskOutcome { message, wait: outcome.0 },
            RpcEvent::Outcome(outcome.1),
            later,
        ),
        call_ensures(AwaitBlockProof::replied, place, later) ==> follows(
            polling_config,
            RpcStep::AskBlockProof { message, wait: place.0 },
            RpcEvent::BlockProof(place.1),
            later,
        ),
        call_ensures(AwaitWindows::replied, windows, later) ==> follows(
            polling_config,
            RpcStep::AskWindows { message, wait: windows.0 },
            RpcEvent::Windows(windows.1),
            later,
        ),
{
}

/// What is done with the reply to a query, and with its error once that was serialised, is the step
/// that follows.
pub proof fn law_queries_are_carried_out(
    polling_config: RpcPollingConfig,
    message: ViewClientMessage,
    wait: AwaitQuery,
    reply: Result<RpcQueryResponse, RpcQueryError>,
    error: RpcQueryError,
    explanation: AwaitExplanation,
    value: Result<Value, SerializeError>,
    later: RpcStep,
)
    ensures
        call_ensures(AwaitQuery::replied, (wait, reply), later) ==> follows(
            polling_config,
            RpcStep::AskQuery { message, wait },
            RpcEvent::Query(reply),
            later,
        ),
        call_ensures(AwaitExplanation::serialized, (explanation, value), later) ==> follows(
            polling_config,
            RpcStep::Explain { error, wait: explanation },
            RpcEvent::Serialized(value),
            later,
        ),
{
}

/// What is done at the end of a conversation about a transaction, and once one is handed over, is
/// the step that follows.
pub proof fn law_conversations_are_carried_out(
    polling_config: RpcPollingConfig,
    step: TxStep,
    wait: AwaitTransaction,
    result: Result<RpcTransactionResponse, RpcTransactionError>,
    message: ProcessTxRequest,
    told: AwaitTold,
    later: RpcStep,
)
    ensures
        call_ensures(AwaitTransaction::finished, (wait, result), later) ==> follows(
            polling_config,
            RpcStep::Transaction { step, wait },
            RpcEvent::Transaction(result),
            later,
        ),
        call_ensures(AwaitTold::told, (told,), later) ==> follows(
            polling_config,
            RpcStep::Tell { message, wait: told },
            RpcEvent::Told,
            later,
        ),
{
}

/// What is done once a message is spread, and with what is in store, is the step that follows.
pub proof fn law_special_methods_are_carried_out(
    polling_config: RpcPollingConfig,
    message: NetworkAdversarialMessage,
    to_view_client: bool,
    wait: AwaitSpread,
    question: ClientMessage,
    store: AwaitStore,
    reply: Result<Option<Value>, MailboxError>,
    later: RpcStep,
)
    ensures
        call_ensures(AwaitSpread::spread, (wait,), later) ==> follows(
            polling_config,
            RpcStep::Spread { message, to_view_client, wait },
            RpcEvent::Spread,
            later,
        ),
        call_ensures(AwaitStore::replied, (store, reply), later) ==> follows(
            polling_config,
            RpcStep::AskStore { message: question, wait: store },
            RpcEvent::Store(reply),
            later,
        ),
{
}

/// What is done once a node that runs alone has its task, with the word on the task, at the end of
/// a sleep and at the end of the time limit is the step that follows.
pub proof fn law_sandbox_tasks_are_carried_out(
    polling_config: RpcPollingConfig,
    message: ClientMessage,
    time_limit: Option<Duration>,
    interval: Duration,
    begun: AwaitSandbox,
    word: Result<(), Value>,
    poll: SandboxPoll,
    reply: Result<SandboxResponse, MailboxError>,
    later: RpcStep,
)
    ensures
        call_ensures(AwaitSandbox::replied, (begun, word), later) ==> follows(
            polling_config,
            RpcStep::AskSandbox { message, wait: begun },
            RpcEvent::SandboxBegun(word),
            later,
        ),
        call_ensures(SandboxPoll::replied, (poll, reply), later) ==> follows(
            polling_config,
            RpcStep::PollSandbox { message, time_limit, wait: poll },
            RpcEvent::Sandbox(reply),
            later,
        ),
        call_ensures(SandboxPoll::slept, (poll,), later) ==> follows(
            polling_config,
            RpcStep::SleepSandbox { interval, wait: poll },
            RpcEvent::Slept,
            later,
        ),
        poll.task is FastForward ==> call_requires(SandboxPoll::timed_out, (poll,)),
        call_ensures(SandboxPoll::timed_out, (poll,), later) && poll.task is FastForward ==> follows(
            polling_config,
            RpcStep::PollSandbox { message, time_limit, wait: poll },
            RpcEvent::TimedOut,
            later,
        ),
        call_ensures(SandboxPoll::timed_out, (poll,), later) && poll.task is FastForward ==> follows(
            polling_config,
            RpcStep::SleepSandbox { interval, wait: poll },
            RpcEvent::TimedOut,
            later,
        ),
{
}

/// What is done with a response that was serialised, or failed to be, is the step that follows.
pub proof fn law_serialised_responses_are_carried_out(
    polling_config: RpcPollingConfig,
    response: RpcResponse,
    wait: AwaitSerialized,
    value: Result<Value, SerializeError>,
    later: RpcStep,
)
    ensures
        call_ensures(AwaitSerialized::serialized, (wait, value), later) ==> follows(
            polling_config,
            RpcStep::Serialize { response, wait },
            RpcEvent::Serialized(value),
            later,
        ),
{
}

} // verus!
