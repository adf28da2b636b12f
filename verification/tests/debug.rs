use serde_json::Value;
use unc_jsonrpc::config::RpcPollingConfig;
use unc_jsonrpc::debug::{
    DebugApi, DebugQuery, DebugStatusResponse, RpcDebugStatusResponse, RpcStatusError,
};
use unc_jsonrpc::handler::{Features, JsonRpcHandler};
use unc_jsonrpc::http::{
    client_config_handler, debug_block_status_handler, debug_handler, handle_entity_debug,
    health_handler, index_reply, network_info_handler, page_reply, prometheus_handler,
    status_handler, DebugRequest, HttpReply,
};
use unc_jsonrpc::metrics::Metric;
use unc_jsonrpc::node::{ClientMessage, DebugStatus, GetDebugStatus};
use unc_jsonrpc::pages::{page_content, DebugPage, FileError, PageSource};

fn handler(enable_debug_rpc: bool) -> JsonRpcHandler {
    JsonRpcHandler {
        polling_config: RpcPollingConfig::default(),
        enable_debug_rpc,
        debug_pages_src_path: None,
        features: Features { sandbox: false, test_features: false },
    }
}

fn apis() -> Vec<(&'static str, DebugQuery)> {
    vec![
        ("tracked_shards", DebugQuery::Client(DebugStatus::TrackedShards)),
        ("sync_status", DebugQuery::Client(DebugStatus::SyncStatus)),
        ("catchup_status", DebugQuery::Client(DebugStatus::CatchupStatus)),
        ("epoch_info", DebugQuery::Client(DebugStatus::EpochInfo)),
        ("block_status", DebugQuery::Client(DebugStatus::BlockStatus(None))),
        ("validator_status", DebugQuery::Client(DebugStatus::ValidatorStatus)),
        ("chain_processing_status", DebugQuery::Client(DebugStatus::ChainProcessingStatus)),
        ("requested_state_parts", DebugQuery::Client(DebugStatus::RequestedStateParts)),
        ("peer_store", DebugQuery::PeerManager(GetDebugStatus::PeerStore)),
        ("network_graph", DebugQuery::PeerManager(GetDebugStatus::Graph)),
        (
            "recent_outbound_connections",
            DebugQuery::PeerManager(GetDebugStatus::RecentOutboundConnections),
        ),
        ("network_routes", DebugQuery::PeerManager(GetDebugStatus::Routes)),
        ("snapshot_hosts", DebugQuery::PeerManager(GetDebugStatus::SnapshotHosts)),
        ("split_store_info", DebugQuery::SplitStorage),
    ]
}

#[test]
fn debug_paths() {
    for (name, query) in apis() {
        let path = format!("/debug/api/{}", name);
        assert_eq!(handler(true).debug(&path), Some(query));
        assert_eq!(handler(false).debug(&path), None);
        assert_eq!(debug_handler(&handler(true), &path), DebugRequest::Part { query });
        assert_eq!(debug_handler(&handler(false), &path), DebugRequest::Refused);
    }
}

#[test]
fn paths_are_told_apart() {
    let mut found: Vec<DebugApi> = vec![];
    for (name, query) in apis() {
        let api = DebugApi::of_path(&format!("/debug/api/{}", name)).unwrap();
        assert_eq!(api.query(), query);
        assert!(!found.contains(&api));
        found.push(api);
    }
}

#[test]
fn unknown_debug_path() {
    for path in ["/debug/api/nothing", "tracked_shards", "/debug/api/tracked_shards/", ""] {
        assert_eq!(DebugApi::of_path(&path.to_string()), None);
        assert_eq!(handler(true).debug(&path.to_string()), None);
        assert_eq!(debug_handler(&handler(true), &path.to_string()), DebugRequest::Refused);
    }
}

#[test]
fn detailed_status() {
    let message = || ClientMessage::Status { is_health_check: false, detailed: true };
    let path = "/debug/api/status".to_string();
    assert_eq!(handler(true).old_debug(), Some(message()));
    assert_eq!(handler(false).old_debug(), None);
    assert_eq!(
        debug_handler(&handler(true), &path),
        DebugRequest::Status { message: message() }
    );
    assert_eq!(debug_handler(&handler(false), &path), DebugRequest::Refused);
    assert_eq!(handler(true).debug(&path), None);
}

#[test]
fn blocks_from_a_height() {
    let from = |height| DebugQuery::Client(DebugStatus::BlockStatus(height));
    assert_eq!(debug_block_status_handler(&handler(true), 12), Some(from(Some(12))));
    assert_eq!(debug_block_status_handler(&handler(false), 12), None);
    assert_eq!(handler(true).debug_block_status(None), Some(from(None)));
    assert_eq!(handler(false).debug_block_status(None), None);
}

#[test]
fn parts_of_the_state() {
    let response = |status_response| Ok(RpcDebugStatusResponse { status_response });
    let client = DebugQuery::Client(DebugStatus::SyncStatus);
    assert_eq!(
        client.replied(Ok(Value::from(1))),
        response(DebugStatusResponse::Reply(Value::from(1)))
    );
    assert_eq!(
        client.replied(Err(Value::from(2))),
        Err(RpcStatusError::Node { info: Value::from(2) })
    );
    let peers = DebugQuery::PeerManager(GetDebugStatus::Graph);
    assert_eq!(
        peers.replied(Ok(Value::from(3))),
        response(DebugStatusResponse::Reply(Value::from(3)))
    );
    assert_eq!(
        DebugQuery::SplitStorage.replied(Ok(Value::from(4))),
        response(DebugStatusResponse::SplitStoreStatus(Value::from(4)))
    );
    assert_eq!(
        DebugQuery::SplitStorage.replied(Err(Value::from(5))),
        Err(RpcStatusError::SplitStorage { info: Value::from(5) })
    );
}

#[test]
fn handlers_ask_the_client() {
    assert_eq!(
        status_handler(&handler(false)),
        (
            Metric::HttpStatusRequestCount,
            ClientMessage::Status { is_health_check: false, detailed: false }
        )
    );
    assert_eq!(
        health_handler(&handler(false)),
        ClientMessage::Status { is_health_check: true, detailed: false }
    );
    assert_eq!(network_info_handler(&handler(false)), ClientMessage::GetNetworkInfo);
    assert_eq!(client_config_handler(&handler(false)), ClientMessage::GetClientConfig);
}

#[test]
fn replies_and_status_codes() {
    let reply: HttpReply<u8> = HttpReply::of_result(Ok::<u8, ()>(7));
    assert_eq!(reply, HttpReply::Json { value: 7 });
    assert_eq!(reply.status(), 200);
    let reply: HttpReply<u8> = HttpReply::of_result(Err("lost"));
    assert_eq!(reply, HttpReply::ServiceUnavailable);
    assert_eq!(reply.status(), 503);
    let reply: HttpReply<u8> = HttpReply::of_debug_result(Ok::<Option<u8>, ()>(Some(7)));
    assert_eq!(reply, HttpReply::Json { value: 7 });
    let reply: HttpReply<u8> = HttpReply::of_debug_result(Ok::<Option<u8>, ()>(None));
    assert_eq!(reply, HttpReply::MethodNotAllowed);
    assert_eq!(reply.status(), 405);
    let reply: HttpReply<u8> = HttpReply::of_debug_result(Err("lost"));
    assert_eq!(reply, HttpReply::ServiceUnavailable);
}

#[test]
fn questions_about_what_is_in_store() {
    assert_eq!(handle_entity_debug(Ok(7)), HttpReply::Json { value: 7 });
    let reply: HttpReply<u8> = handle_entity_debug(Err("NoSuchBlock".to_string()));
    assert_eq!(reply, HttpReply::Failure { body: "NoSuchBlock".to_string() });
    assert_eq!(reply.status(), 503);
}

#[test]
fn metrics_are_a_text() {
    let (metric, wait) = prometheus_handler();
    assert_eq!(metric, Metric::PrometheusRequestCount);
    let reply = wait.gathered("rpc_total 3\n\u{e9}".to_string().into_bytes());
    assert_eq!(reply, HttpReply::Text { body: "rpc_total 3\n\u{e9}".to_string() });
    assert_eq!(reply.status(), 200);
}

#[test]
fn metrics_that_are_no_text() {
    let (_, wait) = prometheus_handler();
    assert_eq!(wait.gathered(vec![b'a', 0xff]), HttpReply::ServiceUnavailable);
}

fn pages() -> Vec<(&'static str, &'static str)> {
    vec![
        ("last_blocks", "last_blocks.html"),
        ("last_blocks.css", "last_blocks.css"),
        ("last_blocks.js", "last_blocks.js"),
        ("network_info", "network_info.html"),
        ("network_info.css", "network_info.css"),
        ("network_info.js", "network_info.js"),
        ("tier1_network_info", "tier1_network_info.html"),
        ("epoch_info", "epoch_info.html"),
        ("epoch_info.css", "epoch_info.css"),
        ("chain_n_chunk_info", "chain_n_chunk_info.html"),
        ("chain_n_chunk_info.css", "chain_n_chunk_info.css"),
        ("sync", "sync.html"),
        ("sync.css", "sync.css"),
        ("validator", "validator.html"),
        ("validator.css", "validator.css"),
        ("split_store", "split_store.html"),
    ]
}

#[test]
fn pages_are_built_in() {
    for (name, file) in pages() {
        assert_eq!(
            handler(false).display_debug_html(&name.to_string()),
            Some(PageSource::BuiltIn { file })
        );
    }
    assert_eq!(handler(false).debug_html(), PageSource::BuiltIn { file: "debug.html" });
}

#[test]
fn pages_are_read_from_the_directory() {
    let mut handler = handler(false);
    handler.debug_pages_src_path = Some("res".to_string());
    for (name, file) in pages() {
        assert_eq!(
            handler.display_debug_html(&name.to_string()),
            Some(PageSource::Directory { directory: "res".to_string(), file })
        );
    }
    assert_eq!(
        handler.debug_html(),
        PageSource::Directory { directory: "res".to_string(), file: "debug.html" }
    );
}

#[test]
fn page_names_are_told_apart() {
    let mut found: Vec<DebugPage> = vec![];
    for (name, file) in pages() {
        let page = DebugPage::of_name(&name.to_string()).unwrap();
        assert_eq!(page.file(), file);
        if name.ends_with(".css") || name.ends_with(".js") {
            assert_eq!(file, name);
        } else {
            assert_eq!(file, format!("{}.html", name));
        }
        assert!(!found.contains(&page));
        found.push(page);
    }
}

#[test]
fn unknown_page() {
    for name in ["", "last_blocks.html", "debug", "../Cargo.toml"] {
        assert_eq!(handler(false).display_debug_html(&name.to_string()), None);
    }
    let reply = page_reply(None);
    assert_eq!(reply, HttpReply::NotFound);
    assert_eq!(reply.status(), 404);
}

#[test]
fn page_replies() {
    let reply = page_reply(Some("<html>".to_string()));
    assert_eq!(reply, HttpReply::Html { body: "<html>".to_string() });
    assert_eq!(reply.status(), 200);
    assert_eq!(index_reply("<html>".to_string()), HttpReply::Text { body: "<html>".to_string() });
}

#[test]
fn page_contents() {
    assert_eq!(page_content(Ok("<html>".to_string())), "<html>");
    let failure =
        FileError { path: "res/sync.html".to_string(), error: "Os { code: 2 }".to_string() };
    assert_eq!(page_content(Err(failure)), "Could not load path res/sync.html: Os { code: 2 }");
}
