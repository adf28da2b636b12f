use std::time::Duration;
use unc_jsonrpc::config::{
    default_enable_debug_rpc, ListenerAddr, RpcConfig, RpcLimitsConfig, RpcPollingConfig,
};

#[test]
fn polling_defaults() {
    let config = RpcPollingConfig::default();
    assert_eq!(config.polling_interval, Duration::from_millis(500));
    assert_eq!(config.polling_timeout, Duration::from_secs(10));
}

#[test]
fn payload_limit_default() {
    assert_eq!(RpcLimitsConfig::default().json_payload_max_size, 10_485_760);
}

#[test]
fn debug_is_off_by_default() {
    assert!(!default_enable_debug_rpc());
    assert!(!RpcConfig::default().enable_debug_rpc);
}

#[test]
fn default_config() {
    let config = RpcConfig::default();
    assert_eq!(config.addr.text, "0.0.0.0:3030");
    assert_eq!(config.prometheus_addr, None);
    assert_eq!(config.cors_allowed_origins, vec!["*".to_string()]);
    assert_eq!(config.polling_config, RpcPollingConfig::default());
    assert_eq!(config.limits_config, RpcLimitsConfig::default());
    assert_eq!(config.experimental_debug_pages_src_path, None);
}

#[test]
fn config_on_an_address() {
    let config = RpcConfig::new(ListenerAddr { text: "127.0.0.1:4040".to_string() });
    assert_eq!(config.addr.text, "127.0.0.1:4040");
    let mut same = RpcConfig::default();
    same.addr = ListenerAddr { text: "127.0.0.1:4040".to_string() };
    assert_eq!(config, same);
}

#[test]
fn config_copies() {
    let mut config = RpcConfig::default();
    config.prometheus_addr = Some("0.0.0.0:9090".to_string());
    config.cors_allowed_origins = vec!["https://a.example".to_string(), "*".to_string()];
    config.enable_debug_rpc = true;
    config.experimental_debug_pages_src_path = Some("pages".to_string());
    assert_eq!(config.clone(), config);
}
