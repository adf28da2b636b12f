use unc_jsonrpc::config::{ListenerAddr, RpcConfig};
use unc_jsonrpc::handler::Features;
use unc_jsonrpc::server::{start_http, Endpoint, HttpMethod, HttpPlan};

fn plan_of(config: RpcConfig) -> HttpPlan {
    start_http(config, Features { sandbox: false, test_features: false }).1
}

#[test]
fn one_server_by_default() {
    let plan = plan_of(RpcConfig::default());
    assert_eq!(plan.json_rpc.name, "JSON RPC");
    assert_eq!(plan.json_rpc.addr, "0.0.0.0:3030");
    assert_eq!(plan.json_rpc.workers, 4);
    assert_eq!(plan.json_rpc.shutdown_timeout, 5);
    assert_eq!(
        plan.json_rpc.endpoints,
        vec![
            Endpoint::Rpc,
            Endpoint::Status,
            Endpoint::Health,
            Endpoint::NetworkInfo,
            Endpoint::Metrics,
            Endpoint::EntityDebug,
            Endpoint::DebugApi,
            Endpoint::DebugBlockStatus,
            Endpoint::ClientConfig,
            Endpoint::DebugIndex,
            Endpoint::DebugPage,
        ]
    );
    assert_eq!(plan.prometheus, None);
    assert_eq!(plan.json_payload_max_size, 10_485_760);
    assert_eq!(plan.cors_allowed_origins, vec!["*".to_string()]);
}

#[test]
fn metrics_get_a_server_of_their_own() {
    let mut config = RpcConfig::default();
    config.prometheus_addr = Some("0.0.0.0:9090".to_string());
    let server = plan_of(config).prometheus.unwrap();
    assert_eq!(server.name, "Prometheus Metrics");
    assert_eq!(server.addr, "0.0.0.0:9090");
    assert_eq!(server.workers, 2);
    assert_eq!(server.shutdown_timeout, 5);
    assert_eq!(server.endpoints, vec![Endpoint::Metrics]);
}

#[test]
fn metrics_on_the_same_address_need_no_server() {
    let mut config = RpcConfig::new(ListenerAddr { text: "127.0.0.1:4040".to_string() });
    config.prometheus_addr = Some("127.0.0.1:4040".to_string());
    assert_eq!(plan_of(config).prometheus, None);
}

#[test]
fn handler_is_configured() {
    let mut config = RpcConfig::default();
    config.enable_debug_rpc = true;
    config.experimental_debug_pages_src_path = Some("pages".to_string());
    let polling_config = config.polling_config;
    let features = Features { sandbox: true, test_features: false };
    let handler = start_http(config, features).0;
    assert_eq!(handler.polling_config, polling_config);
    assert!(handler.enable_debug_rpc);
    assert_eq!(handler.debug_pages_src_path, Some("pages".to_string()));
    assert_eq!(handler.features, features);
}

#[test]
fn started_servers_are_listed() {
    let mut config = RpcConfig::default();
    config.prometheus_addr = Some("0.0.0.0:9090".to_string());
    let plan = plan_of(config);
    assert_eq!(plan.started(Some(1), Some(2)), vec![("JSON RPC", 1), ("Prometheus Metrics", 2)]);
    assert_eq!(plan.started(Some(1), None), vec![("JSON RPC", 1)]);
    assert_eq!(plan.started(None, Some(2)), vec![("Prometheus Metrics", 2)]);
    assert_eq!(plan.started::<u8>(None, None), vec![]);
}

#[test]
fn paths() {
    assert_eq!(Endpoint::Rpc.path(), "/");
    assert_eq!(Endpoint::Status.path(), "/status");
    assert_eq!(Endpoint::Health.path(), "/health");
    assert_eq!(Endpoint::NetworkInfo.path(), "/network_info");
    assert_eq!(Endpoint::Metrics.path(), "/metrics");
    assert_eq!(Endpoint::EntityDebug.path(), "/debug/api/entity");
    assert_eq!(Endpoint::DebugApi.path(), "/debug/api/{api}");
    assert_eq!(
        Endpoint::DebugBlockStatus.path(),
        "/debug/api/block_status/{starting_height}"
    );
    assert_eq!(Endpoint::ClientConfig.path(), "/debug/client_config");
    assert_eq!(Endpoint::DebugIndex.path(), "/debug");
    assert_eq!(Endpoint::DebugPage.path(), "/debug/pages/{page}");
}

#[test]
fn http_methods() {
    assert!(Endpoint::Rpc.takes(HttpMethod::Post));
    assert!(!Endpoint::Rpc.takes(HttpMethod::Get));
    assert!(Endpoint::EntityDebug.takes(HttpMethod::Post));
    assert!(!Endpoint::EntityDebug.takes(HttpMethod::Head));
    assert!(Endpoint::Status.takes(HttpMethod::Get));
    assert!(Endpoint::Status.takes(HttpMethod::Head));
    assert!(!Endpoint::Status.takes(HttpMethod::Post));
    assert!(Endpoint::Health.takes(HttpMethod::Head));
    assert!(Endpoint::Metrics.takes(HttpMethod::Get));
    assert!(!Endpoint::Metrics.takes(HttpMethod::Head));
    assert!(!Endpoint::DebugPage.takes(HttpMethod::Post));
}
