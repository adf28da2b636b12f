//! What holds of the handling of every request, whatever the node replies.
use crate::config::RpcPollingConfig;
use crate::dispatch::{call_begins, MethodCall};
use crate::errors::{
    HandlerError, MailboxError, RpcError, RpcParseError, RpcQueryError, SerializeError,
};
use crate::handler::JsonRpcHandler;
use crate::methods::Method;
use crate::node::SandboxResponse;
use crate::primitives::{BlockHeight, CryptoHash, RpcTransactionError};
use crate::query::RpcQueryResponse;
use crate::requests::{
    after_block, after_block_proof, after_explanation, after_outcome, after_params, after_query,
    after_receipt, after_reply, after_sandbox, after_sandbox_poll, after_serialized, after_spread,
    after_store, after_transaction, after_windows, respond, status_of, suits, BlockProof,
    ExecutionOutcome, Params, RpcResponse, RpcStep,
};
use crate::transaction_laws::sends;
use crate::transactions::RpcTransactionResponse;
use serde_json::Value;
use std::ops::Range;
use vstd::prelude::*;

verus! {

/// Something that can come back while the handling of a request waits.
pub enum RpcEvent {
    /// The parameters were read, or could not be.
    Params(Result<Params, RpcParseError>),
    /// The conversation about a transaction has come to its end.
    Transaction(Result<RpcTransactionResponse, RpcTransactionError>),
    /// The transaction is handed over.
    Told,
    Reply(Result<Value, Value>),
    Block(Result<CryptoHash, Value>),
    Receipt(Result<Option<Value>, Value>),
    Outcome(Result<ExecutionOutcome, Value>),
    BlockProof(Result<BlockProof, Value>),
    Windows(Result<Vec<Range<BlockHeight>>, Value>),
    Query(Result<RpcQueryResponse, RpcQueryError>),
    /// The message is on its way.
    Spread,
    Store(Result<Option<Value>, MailboxError>),
    /// A node that runs alone has its task.
    SandboxBegun(Result<(), Value>),
    /// The word on the task.
    Sandbox(Result<SandboxResponse, MailboxError>),
    /// The sleep is over.
    Slept,
    /// The time limit on the task is reached.
    TimedOut,
    /// A value was serialised, or failed to be.
    Serialized(Result<Value, SerializeError>),
}

/// Whether the event can come back while `step` waits, and `later` is what follows.
pub open spec fn follows(
    polling_config: RpcPollingConfig,
    step: RpcStep,
    event: RpcEvent,
    later: RpcStep,
) -> bool {
    match (step, event) {
        (RpcStep::Parse { wait, .. }, RpcEvent::Params(params)) => {
            &&& params matches Ok(params) ==> suits(wait.method, params)
            &&& after_params(polling_config, wait, params, later)
        },
        (RpcStep::Transaction { wait, .. }, RpcEvent::Transaction(result)) => later
            == after_transaction(wait, result),
        (RpcStep::Tell { wait, .. }, RpcEvent::Told) => later == respond(
            wait.metrics_name,
            RpcResponse::TransactionHash { hash: wait.hash.base58 },
        ),
        (RpcStep::AskClient { wait, .. }, RpcEvent::Reply(reply)) => later == after_reply(
            wait,
            reply,
        ),
        (RpcStep::AskViewClient { wait, .. }, RpcEvent::Reply(reply)) => later == after_reply(
            wait,
            reply,
        ),
        (RpcStep::AskBlock { wait, .. }, RpcEvent::Block(reply)) => later == after_block(
            wait,
            reply,
        ),
        (RpcStep::AskReceipt { wait, .. }, RpcEvent::Receipt(reply)) => later == after_receipt(
            wait,
            reply,
        ),
        (RpcStep::AskOutcome { wait, .. }, RpcEvent::Outcome(reply)) => later == after_outcome(
            wait,
            reply,
        ),
        (RpcStep::AskBlockProof { wait, .. }, RpcEvent::BlockProof(reply)) => later
            == after_block_proof(wait, reply),
        (RpcStep::AskWindows { wait, .. }, RpcEvent::Windows(reply)) => after_windows(
            wait,
            reply,
            later,
        ),
        (RpcStep::AskQuery { wait, .. }, RpcEvent::Query(reply)) => after_query(
            wait,
            reply,
            later,
        ),
        (RpcStep::Explain { wait, .. }, RpcEvent::Serialized(value)) => after_explanation(
            wait,
            value,
            later,
        ),
        (RpcStep::Spread { wait, .. }, RpcEvent::Spread) => after_spread(wait, later),
        (RpcStep::AskStore { wait, .. }, RpcEvent::Store(reply)) => later == after_store(
            wait,
            reply,
        ),
        (RpcStep::AskSandbox { wait, .. }, RpcEvent::SandboxBegun(reply)) => after_sandbox(
            wait,
            reply,
            later,
        ),
        (RpcStep::PollSandbox { wait, .. }, RpcEvent::Sandbox(reply)) => after_sandbox_poll(
            wait,
            reply,
            later,
        ),
        (RpcStep::SleepSandbox { wait, .. }, RpcEvent::Slept) => later == (
        RpcStep::PollSandbox { message: status_of(wait.task), time_limit: None, wait }),
        (RpcStep::PollSandbox { wait, .. }, RpcEvent::TimedOut) => {
            &&& wait.task is FastForward
            &&& later matches RpcStep::Done {
                metrics_name,
                response: Err(RpcError::Handler(HandlerError::SandboxFastForward { error_message })),
            }
            &&& metrics_name == wait.metrics_name
            &&& error_message@
                == "sandbox failed to fast forward within reasonable time of an hour"@
        },
        (RpcStep::SleepSandbox { wait, .. }, RpcEvent::TimedOut) => {
            &&& wait.task is FastForward
            &&& later matches RpcStep::Done {
                metrics_name,
                response: Err(RpcError::Handler(HandlerError::SandboxFastForward { error_message })),
            }
            &&& metrics_name == wait.metrics_name
            &&& error_message@
                == "sandbox failed to fast forward within reasonable time of an hour"@
        },
        (RpcStep::Serialize { wait, .. }, RpcEvent::Serialized(value)) => later
            == after_serialized(wait, value),
        _ => false,
    }
}

/// Whether the steps follow each other on the events.
pub open spec fn is_run(
    polling_config: RpcPollingConfig,
    steps: Seq<RpcStep>,
    events: Seq<RpcEvent>,
) -> bool {
    &&& steps.len() == events.len() + 1
    &&& forall|i: int|
        0 <= i < events.len() ==> #[trigger] follows(
            polling_config,
            steps[i],
            events[i],
            steps[i + 1],
        )
}

/// The name under which a request is counted that has come to this step.
pub open spec fn counted_as(step: RpcStep) -> Seq<char> {
    match step {
        RpcStep::Parse { wait, .. } => wait.metrics_name@,
        RpcStep::Transaction { wait, .. } => wait.metrics_name@,
        RpcStep::Tell { wait, .. } => wait.metrics_name@,
        RpcStep::AskClient { wait, .. } => wait.metrics_name@,
        RpcStep::AskViewClient { wait, .. } => wait.metrics_name@,
        RpcStep::AskBlock { wait, .. } => wait.metrics_name@,
        RpcStep::AskReceipt { wait, .. } => wait.metrics_name@,
        RpcStep::AskOutcome { wait, .. } => wait.metrics_name@,
        RpcStep::AskBlockProof { wait, .. } => wait.metrics_name@,
        RpcStep::AskWindows { wait, .. } => wait.metrics_name@,
        RpcStep::AskQuery { wait, .. } => wait.metrics_name@,
        RpcStep::Explain { wait, .. } => wait.metrics_name@,
        RpcStep::Spread { wait, .. } => wait.metrics_name@,
        RpcStep::AskStore { wait, .. } => wait.metrics_name@,
        RpcStep::AskSandbox { wait, .. } => wait.metrics_name@,
        RpcStep::PollSandbox { wait, .. } => wait.metrics_name@,
        RpcStep::SleepSandbox { wait, .. } => wait.metrics_name@,
        RpcStep::Serialize { wait, .. } => wait.metrics_name@,
        RpcStep::Done { metrics_name, .. } => metrics_name@,
    }
}

/// Whether the step has the node do more than tell what it knows.
pub open spec fn changes_the_node(step: RpcStep) -> bool {
    match step {
        RpcStep::Tell { .. } => true,
        RpcStep::Transaction { step, .. } => sends(step),
        RpcStep::Spread { .. } => true,
        RpcStep::AskSandbox { .. } => true,
        _ => false,
    }
}

/// Whether the method is there to have the node do more than tell what it knows.
pub open spec fn is_command(method: Method) -> bool {
    match method {
        Method::Basic(method) => {
            ||| method is BroadcastTxAsync
            ||| method is BroadcastTxCommit
            ||| method is SendTx
            ||| method is SandboxPatchState
            ||| method is SandboxFastForward
        },
        Method::Adversarial(method) => !(method is GetSavedBlocks) && !(method is CheckStore),
        Method::Query => false,
    }
}

/// A run without its last step is a run.
proof fn lemma_run_without_last(
    polling_config: RpcPollingConfig,
    steps: Seq<RpcStep>,
    events: Seq<RpcEvent>,
)
    requires
        is_run(polling_config, steps, events),
        events.len() > 0,
    ensures
        is_run(polling_config, steps.drop_last(), events.drop_last()),
        ({
            let n = events.len() - 1;
            follows(polling_config, steps[n], events[n], steps[n + 1])
        }),
{
    assert forall|i: int| 0 <= i < events.drop_last().len() implies #[trigger] follows(
        polling_config,
        steps.drop_last()[i],
        events.drop_last()[i],
        steps.drop_last()[i + 1],
    ) by {
        assert(follows(polling_config, steps[i], events[i], steps[i + 1]));
    }
    let n = events.len() - 1;
    assert(follows(polling_config, steps[n], events[n], steps[n + 1]));
}

proof fn lemma_next_keeps_name(
    polling_config: RpcPollingConfig,
    step: RpcStep,
    event: RpcEvent,
    later: RpcStep,
)
    requires
        follows(polling_config, step, event, later),
    ensures
        !(later is Parse),
        counted_as(later) == counted_as(step) || ({
            &&& step matches RpcStep::Parse { wait, .. }
            &&& wait.method is Query
            &&& event matches RpcEvent::Params(Ok(Params::Query(request)))
            &&& counted_as(later) == request.request.spec_metrics_name()
        }),
{
}

proof fn lemma_run_keeps_name(
    polling_config: RpcPollingConfig,
    steps: Seq<RpcStep>,
    events: Seq<RpcEvent>,
)
    requires
        is_run(polling_config, steps, events),
        steps[0] matches RpcStep::Parse { wait, .. } ==> !(wait.method is Query),
    ensures
        events.len() > 0 ==> !(steps.last() is Parse),
        counted_as(steps.last()) == counted_as(steps[0]),
    decreases events.len(),
{
    if events.len() > 0 {
        let n = events.len() - 1;
        lemma_run_without_last(polling_config, steps, events);
        lemma_run_keeps_name(polling_config, steps.drop_last(), events.drop_last());
        lemma_next_keeps_name(polling_config, steps[n], events[n], steps[n + 1]);
    }
}

/// Whatever comes back, a call of any method but `query` is counted under the name of the
/// method.
pub proof fn law_counted_under_its_method(
    polling_config: RpcPollingConfig,
    method: Method,
    call: MethodCall,
    steps: Seq<RpcStep>,
    events: Seq<RpcEvent>,
)
    requires
        !(method is Query),
        is_run(polling_config, steps, events),
        steps[0] == call_begins(method, call),
    ensures
        counted_as(steps.last()) == call.method@,
{
    lemma_run_keeps_name(polling_config, steps, events);
}

/// Whatever comes back, a query is counted by its kind, and under the name of the method only
/// where its parameters could not be read.
pub proof fn law_query_counted_by_kind(
    polling_config: RpcPollingConfig,
    call: MethodCall,
    steps: Seq<RpcStep>,
    events: Seq<RpcEvent>,
)
    requires
        is_run(polling_config, steps, events),
        events.len() > 0,
        steps[0] == call_begins(Method::Query, call),
    ensures
        match events[0] {
            RpcEvent::Params(Ok(Params::Query(request))) => counted_as(steps.last())
                == request.request.spec_metrics_name(),
            _ => counted_as(steps.last()) == call.method@,
        },
{
    let start: int = 0;
    assert(follows(polling_config, steps[start], events[start], steps[start + 1]));
    let later = steps.drop_first();
    let rest = events.drop_first();
    assert(is_run(polling_config, later, rest)) by {
        assert forall|i: int| 0 <= i < rest.len() implies #[trigger] follows(
            polling_config,
            later[i],
            rest[i],
            later[i + 1],
        ) by {
            assert(follows(polling_config, steps[i + 1], events[i + 1], steps[i + 1 + 1]));
        }
    }
    lemma_run_keeps_name(polling_config, later, rest);
    assert(later.last() == steps.last());
}

proof fn lemma_run_of_question(
    polling_config: RpcPollingConfig,
    steps: Seq<RpcStep>,
    events: Seq<RpcEvent>,
)
    requires
        is_run(polling_config, steps, events),
        !changes_the_node(steps[0]),
        steps[0] matches RpcStep::Parse { wait, .. } ==> !is_command(wait.method),
    ensures
        !changes_the_node(steps.last()),
        steps.last() matches RpcStep::Parse { wait, .. } ==> !is_command(wait.method),
    decreases events.len(),
{
    if events.len() > 0 {
        lemma_run_without_last(polling_config, steps, events);
        lemma_run_of_question(polling_config, steps.drop_last(), events.drop_last());
    }
}

/// Whatever comes back, a call of a method that only asks never has the node do more than
/// tell what it knows.
pub proof fn law_questions_change_nothing(
    polling_config: RpcPollingConfig,
    method: Method,
    call: MethodCall,
    steps: Seq<RpcStep>,
    events: Seq<RpcEvent>,
)
    requires
        !is_command(method),
        is_run(polling_config, steps, events),
        steps[0] == call_begins(method, call),
    ensures
        !changes_the_node(steps.last()),
{
    lemma_run_of_question(polling_config, steps, events);
}

/// Whether the step is one that the node's build allows.
pub open spec fn is_allowed(step: RpcStep, handler: JsonRpcHandler) -> bool {
    match step {
        RpcStep::Parse { wait, .. } => wait.method.is_offered(handler.features),
        RpcStep::Spread { .. } => handler.features.test_features,
        RpcStep::AskStore { .. } => handler.features.test_features,
        RpcStep::AskSandbox { .. } => handler.features.sandbox,
        RpcStep::PollSandbox { .. } => handler.features.sandbox,
        RpcStep::SleepSandbox { .. } => handler.features.sandbox,
        _ => true,
    }
}

proof fn lemma_run_is_allowed(
    handler: JsonRpcHandler,
    steps: Seq<RpcStep>,
    events: Seq<RpcEvent>,
)
    requires
        is_run(handler.polling_config, steps, events),
        is_allowed(steps[0], handler),
    ensures
        is_allowed(steps.last(), handler),
    decreases events.len(),
{
    if events.len() > 0 {
        lemma_run_without_last(handler.polling_config, steps, events);
        lemma_run_is_allowed(handler, steps.drop_last(), events.drop_last());
    }
}

/// Whatever is called and whatever comes back, only a node that is built for it misbehaves, or
/// changes its chain on its own.
pub proof fn law_special_builds_only(
    handler: JsonRpcHandler,
    call: MethodCall,
    steps: Seq<RpcStep>,
    events: Seq<RpcEvent>,
)
    requires
        is_run(handler.polling_config, steps, events),
        handler.dispatches(call, steps[0]),
    ensures
        is_allowed(steps.last(), handler),
{
    if exists|method: Method| #[trigger] handler.calls(call, method) {
        let method = choose|method: Method| #[trigger] handler.calls(call, method);
        assert(steps[0] == call_begins(method, call));
    }
    lemma_run_is_allowed(handler, steps, events);
}

/// How many events a request is from its answer at most, that has come to this step. A node
/// that runs alone may take any number of them over its task.
spec fn distance(step: RpcStep) -> nat {
    match step {
        RpcStep::Parse { .. } => 4,
        RpcStep::AskBlock { .. } => 3,
        RpcStep::AskOutcome { .. } => 3,
        RpcStep::Explain { .. } => 1,
        RpcStep::Spread { .. } => 1,
        RpcStep::Serialize { .. } => 1,
        RpcStep::Done { .. } => 0,
        _ => 2,
    }
}

/// Whether the step has to do with a task of a node that runs alone.
spec fn is_of_sandbox(step: RpcStep) -> bool {
    match step {
        RpcStep::Parse { wait, .. } => wait.method matches Method::Basic(method)
            && method.spec_is_sandbox(),
        RpcStep::AskSandbox { .. } => true,
        RpcStep::PollSandbox { .. } => true,
        RpcStep::SleepSandbox { .. } => true,
        _ => false,
    }
}

proof fn lemma_run_comes_closer(
    polling_config: RpcPollingConfig,
    steps: Seq<RpcStep>,
    events: Seq<RpcEvent>,
)
    requires
        is_run(polling_config, steps, events),
        !is_of_sandbox(steps[0]),
    ensures
        !is_of_sandbox(steps.last()),
        distance(steps.last()) + events.len() <= distance(steps[0]),
    decreases events.len(),
{
    if events.len() > 0 {
        lemma_run_without_last(polling_config, steps, events);
        lemma_run_comes_closer(polling_config, steps.drop_last(), events.drop_last());
    }
}

/// Whatever comes back, a call of any method that leaves the chain of the node alone is
/// answered after four events at most, where a conversation about a transaction counts as one.
pub proof fn law_answered_after_four_events(
    polling_config: RpcPollingConfig,
    method: Method,
    call: MethodCall,
    steps: Seq<RpcStep>,
    events: Seq<RpcEvent>,
)
    requires
        method matches Method::Basic(basic) ==> !basic.spec_is_sandbox(),
        is_run(polling_config, steps, events),
        steps[0] == call_begins(method, call),
    ensures
        events.len() <= 4,
        events.len() == 4 ==> steps.last() is Done,
{
    lemma_run_comes_closer(polling_config, steps, events);
}

} // verus!
