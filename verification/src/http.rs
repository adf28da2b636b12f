//! What the server answers over HTTP.
use crate::debug::{DebugApi, DebugQuery};
use crate::handler::JsonRpcHandler;
use crate::metrics::Metric;
use crate::node::{ClientMessage, DebugStatus};
use crate::primitives::BlockHeight;
use crate::text::same_text;
use serde_json::Value;
use vstd::prelude::*;
use vstd::utf8::{encode_utf8, valid_utf8};

verus! {

/// An answer, with what it holds.
#[derive(Debug, PartialEq, Eq)]
pub enum HttpReply<T> {
    /// Success, with a value in JSON.
    Json { value: T },
    /// Success, with a text.
    Text { body: String },
    /// Success, with a page.
    Html { body: String },
    NotFound,
    MethodNotAllowed,
    ServiceUnavailable,
    /// The service is not available, and the text says why.
    Failure { body: String },
}

impl<T> HttpReply<T> {
    /// The status code of the answer.
    pub fn status(&self) -> (code: u16)
        ensures
            code == (match self {
                HttpReply::Json { .. } => 200u16,
                HttpReply::Text { .. } => 200u16,
                HttpReply::Html { .. } => 200u16,
                HttpReply::NotFound => 404u16,
                HttpReply::MethodNotAllowed => 405u16,
                HttpReply::ServiceUnavailable => 503u16,
                HttpReply::Failure { .. } => 503u16,
            }),
    {
        match self {
            HttpReply::Json { .. } => 200,
            HttpReply::Text { .. } => 200,
            HttpReply::Html { .. } => 200,
            HttpReply::NotFound => 404,
            HttpReply::MethodNotAllowed => 405,
            HttpReply::ServiceUnavailable => 503,
            HttpReply::Failure { .. } => 503,
        }
    }

    /// The answer for what a method came to.
    pub fn of_result<E>(result: Result<T, E>) -> (reply: Self)
        ensures
            reply == (match result {
                Ok(value) => HttpReply::Json { value },
                Err(_) => HttpReply::ServiceUnavailable,
            }),
    {
        match result {
            Ok(value) => HttpReply::Json { value },
            Err(_) => HttpReply::ServiceUnavailable,
        }
    }

    /// The answer for what a debug method came to, which is nothing where it may not be asked
    /// for.
    pub fn of_debug_result<E>(result: Result<Option<T>, E>) -> (reply: Self)
        ensures
            reply == (match result {
                Ok(Some(value)) => HttpReply::Json { value },
                Ok(None) => HttpReply::MethodNotAllowed,
                Err(_) => HttpReply::ServiceUnavailable,
            }),
    {
        match result {
            Ok(Some(value)) => HttpReply::Json { value },
            Ok(None) => HttpReply::MethodNotAllowed,
            Err(_) => HttpReply::ServiceUnavailable,
        }
    }
}

/// What the request for the status is counted as, and the message that asks for it.
pub fn status_handler(handler: &JsonRpcHandler) -> (asked: (Metric, ClientMessage))
    ensures
        asked == (
            Metric::HttpStatusRequestCount,
            ClientMessage::Status { is_health_check: false, detailed: false },
        ),
{
    (Metric::HttpStatusRequestCount, handler.status())
}

/// The message that asks for the health of the node.
pub fn health_handler(handler: &JsonRpcHandler) -> (message: ClientMessage)
    ensures
        message == (ClientMessage::Status { is_health_check: true, detailed: false }),
{
    handler.health()
}

/// The message that asks for the peers of the node.
pub fn network_info_handler(handler: &JsonRpcHandler) -> (message: ClientMessage)
    ensures
        message == ClientMessage::GetNetworkInfo,
{
    handler.network_info()
}

/// The message that asks for the configuration of the client.
pub fn client_config_handler(handler: &JsonRpcHandler) -> (message: ClientMessage)
    ensures
        message == ClientMessage::GetClientConfig,
{
    handler.client_config()
}

/// What is asked for a debug path.
#[derive(Debug, PartialEq, Eq)]
pub enum DebugRequest {
    /// The client is asked for the detailed status.
    Status { message: ClientMessage },
    /// A part of the state is asked for.
    Part { query: DebugQuery },
    /// Nothing: the path may not be asked for, or there is no such path.
    Refused,
}

/// What is asked for a debug path.
pub fn debug_handler(handler: &JsonRpcHandler, path: &String) -> (request: DebugRequest)
    ensures
        !handler.enable_debug_rpc ==> request == DebugRequest::Refused,
        handler.enable_debug_rpc && path@ == "/debug/api/status"@ ==> request == (
        DebugRequest::Status {
            message: ClientMessage::Status { is_health_check: false, detailed: true },
        }),
        handler.enable_debug_rpc && path@ != "/debug/api/status"@ ==> {
            &&& forall|api: DebugApi| #[trigger]
                api.path() == path@ ==> request == (DebugRequest::Part { query: api.spec_query() })
            &&& (forall|api: DebugApi| #[trigger] api.path() != path@) ==> request
                == DebugRequest::Refused
        },
{
    if same_text(path, "/debug/api/status") {
        return match handler.old_debug() {
            Some(message) => DebugRequest::Status { message },
            None => DebugRequest::Refused,
        };
    }
    match handler.debug(path) {
        Some(query) => DebugRequest::Part { query },
        None => DebugRequest::Refused,
    }
}

/// What is asked for the blocks from a height on, if debugging is enabled.
pub fn debug_block_status_handler(handler: &JsonRpcHandler, starting_height: BlockHeight) -> (query:
    Option<DebugQuery>)
    ensures
        query == (if handler.enable_debug_rpc {
            Some(DebugQuery::Client(DebugStatus::BlockStatus(Some(starting_height))))
        } else {
            None
        }),
{
    handler.debug_block_status(Some(starting_height))
}

/// The answer to a question about what is in store, or the reason why there is none, in its
/// debug notation.
pub fn handle_entity_debug<T>(result: Result<T, String>) -> (reply: HttpReply<T>)
    ensures
        reply == (match result {
            Ok(value) => HttpReply::Json { value },
            Err(error) => HttpReply::Failure { body: error },
        }),
{
    match result {
        Ok(value) => HttpReply::Json { value },
        Err(error) => HttpReply::Failure { body: error },
    }
}

/// `String::from_utf8`: the text that the bytes encode in UTF-8, if they encode one.
#[verifier::external_body]
fn text_of_bytes(bytes: Vec<u8>) -> (text: Option<String>)
    ensures
        text is Some <==> valid_utf8(bytes@),
        text matches Some(text) ==> encode_utf8(text@) == bytes@,
{
    String::from_utf8(bytes).ok()
}

/// Waiting for the metrics to be gathered.
#[derive(Debug, PartialEq, Eq)]
pub struct AwaitMetrics {}

/// What the request for the metrics is counted as, before they are gathered.
pub fn prometheus_handler() -> (counted: (Metric, AwaitMetrics))
    ensures
        counted == (Metric::PrometheusRequestCount, AwaitMetrics {  }),
{
    (Metric::PrometheusRequestCount, AwaitMetrics {  })
}

impl AwaitMetrics {
    /// The metrics are gathered, in the notation that `buffer` holds.
    pub fn gathered(self, buffer: Vec<u8>) -> (reply: HttpReply<Value>)
        ensures
            if valid_utf8(buffer@) {
                reply matches HttpReply::Text { body } && encode_utf8(body@) == buffer@
            } else {
                reply == HttpReply::<Value>::ServiceUnavailable
            },
    {
        match text_of_bytes(buffer) {
            Some(text) => HttpReply::Text { body: text },
            None => HttpReply::ServiceUnavailable,
        }
    }
}

/// The answer for the page that lists the others.
pub fn index_reply(content: String) -> (reply: HttpReply<Value>)
    ensures
        reply == (HttpReply::<Value>::Text { body: content }),
{
    HttpReply::Text { body: content }
}

/// The answer for a debug page, if there is one of that name.
pub fn page_reply(content: Option<String>) -> (reply: HttpReply<Value>)
    ensures
        reply == (match content {
            Some(content) => HttpReply::<Value>::Html { body: content },
            None => HttpReply::<Value>::NotFound,
        }),
{
    match content {
        Some(content) => HttpReply::Html { body: content },
        None => HttpReply::NotFound,
    }
}

/// What a method came to is answered with success exactly where it succeeded, and with the very
/// value. A debug method that may not be asked for is told so.
pub proof fn law_answers_are_what_methods_came_to<T, E>(
    result: Result<T, E>,
    debug_result: Result<Option<T>, E>,
    entity_result: Result<T, String>,
    reply: HttpReply<T>,
    debug_reply: HttpReply<T>,
    entity_reply: HttpReply<T>,
)
    requires
        call_ensures(HttpReply::<T>::of_result::<E>, (result,), reply),
        call_ensures(HttpReply::<T>::of_debug_result::<E>, (debug_result,), debug_reply),
        call_ensures(handle_entity_debug::<T>, (entity_result,), entity_reply),
    ensures
        reply is Json <==> result is Ok,
        reply matches HttpReply::Json { value } ==> result == Ok::<T, E>(value),
        result is Err ==> reply is ServiceUnavailable,
        debug_reply is Json <==> (debug_result matches Ok(shown) && shown is Some),
        debug_reply matches HttpReply::Json { value } ==> debug_result == Ok::<Option<T>, E>(
            Some(value),
        ),
        debug_reply is MethodNotAllowed <==> debug_result == Ok::<Option<T>, E>(None),
        debug_reply is ServiceUnavailable <==> debug_result is Err,
        entity_reply is Json <==> entity_result is Ok,
        entity_reply matches HttpReply::Json { value } ==> entity_result == Ok::<T, String>(value),
        entity_reply is Failure <==> entity_result is Err,
        entity_reply matches HttpReply::Failure { body } ==> entity_result == Err::<T, String>(
            body,
        ),
{
}

/// The status code of an answer tells whether it is a success, and it is one exactly where the
/// answer holds a value, a text or a page.
pub proof fn law_status_codes<T>(reply: HttpReply<T>, code: u16)
    requires
        call_ensures(HttpReply::<T>::status, (&reply,), code),
    ensures
        code == 200 <==> reply is Json || reply is Text || reply is Html,
        code == 404 <==> reply is NotFound,
        code == 405 <==> reply is MethodNotAllowed,
        code == 503 <==> reply is ServiceUnavailable || reply is Failure,
        code == 200 || code == 404 || code == 405 || code == 503,
{
}

/// The metrics are answered as they were gathered, and not at all exactly where they are no text.
/// A page is answered as it is, and one that there is not is not found.
pub proof fn law_texts_are_answered_as_they_are(
    wait: AwaitMetrics,
    buffer: Vec<u8>,
    metrics: HttpReply<Value>,
    content: Option<String>,
    page: HttpReply<Value>,
    index_content: String,
    index: HttpReply<Value>,
)
    requires
        call_ensures(AwaitMetrics::gathered, (wait, buffer), metrics),
        call_ensures(page_reply, (content,), page),
        call_ensures(index_reply, (index_content,), index),
    ensures
        metrics is Text <==> valid_utf8(buffer@),
        metrics matches HttpReply::Text { body } ==> encode_utf8(body@) == buffer@,
        metrics is Text || metrics is ServiceUnavailable,
        page is Html <==> content is Some,
        page matches HttpReply::Html { body } ==> content == Some(body),
        page is Html || page is NotFound,
        index matches HttpReply::Text { body } && body == index_content,
{
}

/// A debug path is asked for only where debugging is enabled: the status in detail under its own
/// path, and under any other what the handler asks for that path. The blocks are asked for from
/// the very height that was given.
pub proof fn law_debug_paths(
    handler: JsonRpcHandler,
    path: String,
    request: DebugRequest,
    part: Option<DebugQuery>,
    starting_height: BlockHeight,
    blocks: Option<DebugQuery>,
)
    requires
        call_ensures(debug_handler, (&handler, &path), request),
        call_ensures(JsonRpcHandler::debug, (&handler, &path), part),
        call_ensures(debug_block_status_handler, (&handler, starting_height), blocks),
    ensures
        request is Status <==> handler.enable_debug_rpc && path@ == "/debug/api/status"@,
        request matches DebugRequest::Status { message } ==> (message matches
            ClientMessage::Status { is_health_check, detailed } && !is_health_check && detailed),
        path@ != "/debug/api/status"@ ==> match request {
            DebugRequest::Part { query } => part == Some(query),
            DebugRequest::Refused => part is None,
            DebugRequest::Status { .. } => false,
        },
        blocks == (if handler.enable_debug_rpc {
            Some(DebugQuery::Client(DebugStatus::BlockStatus(Some(starting_height))))
        } else {
            None
        }),
{
    if handler.enable_debug_rpc && path@ != "/debug/api/status"@ {
        if exists|api: DebugApi| #[trigger] api.path() == path@ {
            let api = choose|api: DebugApi| #[trigger] api.path() == path@;
            assert(api.path() == path@);
        }
    }
}

} // verus!
