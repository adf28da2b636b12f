use unc_jsonrpc::handler::JsonRpcHandler;
use unc_jsonrpc::metrics::Metric;

#[test]
fn success_is_counted_and_timed() {
    let metrics = JsonRpcHandler::process_request(&"block".to_string(), None);
    assert_eq!(
        metrics,
        vec![
            Metric::HttpRpcRequestCount { method: "block".to_string() },
            Metric::RpcProcessingTime { method: "block".to_string() },
        ]
    );
}

#[test]
fn error_is_counted_with_its_code() {
    let metrics = JsonRpcHandler::process_request(&"tx".to_string(), Some(-32000));
    assert_eq!(
        metrics,
        vec![
            Metric::HttpRpcRequestCount { method: "tx".to_string() },
            Metric::RpcProcessingTime { method: "tx".to_string() },
            Metric::RpcErrorCount { method: "tx".to_string(), err_code: "-32000".to_string() },
        ]
    );
}
