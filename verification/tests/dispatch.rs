use serde_json::Value;
use unc_jsonrpc::config::RpcPollingConfig;
use unc_jsonrpc::dispatch::{Message, MethodCall, Processing, Request, RpcMessage};
use unc_jsonrpc::errors::RpcError;
use unc_jsonrpc::handler::{Features, JsonRpcHandler};
use unc_jsonrpc::methods::{AdversarialMethod, BasicMethod, Method};
use unc_jsonrpc::node::{ClientMessage, NetworkAdversarialMessage};
use unc_jsonrpc::requests::{AwaitParams, AwaitSpread, AwaitStore, RpcStep};

fn handler(sandbox: bool, test_features: bool) -> JsonRpcHandler {
    JsonRpcHandler {
        polling_config: RpcPollingConfig::default(),
        enable_debug_rpc: false,
        debug_pages_src_path: None,
        features: Features { sandbox, test_features },
    }
}

fn call(method: &str) -> MethodCall {
    MethodCall { method: method.to_string(), params: Value::from(vec![1, 2]) }
}

fn parse(method: Method, name: &str) -> RpcStep {
    RpcStep::Parse {
        params: Value::from(vec![1, 2]),
        wait: AwaitParams { method, metrics_name: name.to_string() },
    }
}

fn refusal(name: &str) -> RpcStep {
    RpcStep::Done {
        metrics_name: "UNSUPPORTED_METHOD".to_string(),
        response: Err(RpcError::MethodNotFound { method: name.to_string() }),
    }
}

fn basic_methods() -> Vec<(&'static str, BasicMethod)> {
    vec![
        ("block", BasicMethod::Block),
        ("broadcast_tx_async", BasicMethod::BroadcastTxAsync),
        ("broadcast_tx_commit", BasicMethod::BroadcastTxCommit),
        ("chunk", BasicMethod::Chunk),
        ("gas_price", BasicMethod::GasPrice),
        ("health", BasicMethod::Health),
        ("light_client_proof", BasicMethod::LightClientProof),
        ("next_light_client_block", BasicMethod::NextLightClientBlock),
        ("network_info", BasicMethod::NetworkInfo),
        ("send_tx", BasicMethod::SendTx),
        ("status", BasicMethod::Status),
        ("tx", BasicMethod::Tx),
        ("validators", BasicMethod::Validators),
        ("client_config", BasicMethod::ClientConfig),
        ("EXPERIMENTAL_changes", BasicMethod::ExperimentalChanges),
        ("EXPERIMENTAL_changes_in_block", BasicMethod::ExperimentalChangesInBlock),
        ("EXPERIMENTAL_genesis_config", BasicMethod::ExperimentalGenesisConfig),
        ("EXPERIMENTAL_light_client_proof", BasicMethod::ExperimentalLightClientProof),
        ("EXPERIMENTAL_protocol_config", BasicMethod::ExperimentalProtocolConfig),
        ("EXPERIMENTAL_receipt", BasicMethod::ExperimentalReceipt),
        ("EXPERIMENTAL_tx_status", BasicMethod::ExperimentalTxStatus),
        ("EXPERIMENTAL_validators_ordered", BasicMethod::ExperimentalValidatorsOrdered),
        ("EXPERIMENTAL_maintenance_windows", BasicMethod::ExperimentalMaintenanceWindows),
        ("EXPERIMENTAL_split_storage_info", BasicMethod::ExperimentalSplitStorageInfo),
        ("provider", BasicMethod::Provider),
    ]
}

#[test]
fn basic_methods_are_found() {
    for (name, method) in basic_methods() {
        assert_eq!(
            handler(false, false).process_request_internal(call(name)),
            parse(Method::Basic(method), name)
        );
        assert_eq!(
            handler(true, true).process_basic_requests_internal(call(name)),
            Ok(parse(Method::Basic(method), name))
        );
        assert_eq!(
            handler(true, true).process_adversarial_request_internal(call(name)),
            Err(call(name))
        );
    }
}

#[test]
fn method_names_are_told_apart() {
    let mut found: Vec<BasicMethod> = vec![];
    for (name, _) in basic_methods() {
        let method = BasicMethod::of_name(&name.to_string()).unwrap();
        assert!(!found.contains(&method));
        found.push(method);
        assert_eq!(AdversarialMethod::of_name(&name.to_string()), None);
    }
}

#[test]
fn query_is_found() {
    assert_eq!(
        handler(false, false).process_request_internal(call("query")),
        parse(Method::Query, "query")
    );
    assert_eq!(
        handler(true, true).process_basic_requests_internal(call("query")),
        Err(call("query"))
    );
}

#[test]
fn unknown_method_is_refused() {
    for name in ["", "Block", "block ", "EXPERIMENTAL_block", "adv_nothing"] {
        assert_eq!(handler(true, true).process_request_internal(call(name)), refusal(name));
    }
}

#[test]
fn sandbox_methods_need_the_sandbox() {
    for (name, method) in [
        ("sandbox_patch_state", BasicMethod::SandboxPatchState),
        ("sandbox_fast_forward", BasicMethod::SandboxFastForward),
    ] {
        assert_eq!(handler(false, true).process_request_internal(call(name)), refusal(name));
        assert_eq!(
            handler(false, true).process_basic_requests_internal(call(name)),
            Err(call(name))
        );
        assert_eq!(
            handler(true, false).process_request_internal(call(name)),
            parse(Method::Basic(method), name)
        );
    }
}

#[test]
fn adversarial_methods_need_the_test_features() {
    for name in [
        "adv_disable_header_sync",
        "adv_disable_doomslug",
        "adv_produce_blocks",
        "adv_switch_to_height",
        "adv_get_saved_blocks",
        "adv_check_store",
    ] {
        assert_eq!(handler(true, false).process_request_internal(call(name)), refusal(name));
    }
}

#[test]
fn adversarial_methods_are_found() {
    let handler = handler(false, true);
    let spread = |name: &str, message| RpcStep::Spread {
        message,
        to_view_client: true,
        wait: AwaitSpread { metrics_name: name.to_string() },
    };
    let store = |name: &str, message| RpcStep::AskStore {
        message: ClientMessage::Adversarial(message),
        wait: AwaitStore { metrics_name: name.to_string() },
    };
    assert_eq!(
        handler.process_request_internal(call("adv_disable_header_sync")),
        spread("adv_disable_header_sync", NetworkAdversarialMessage::AdvDisableHeaderSync)
    );
    assert_eq!(
        handler.process_request_internal(call("adv_disable_doomslug")),
        spread("adv_disable_doomslug", NetworkAdversarialMessage::AdvDisableDoomslug)
    );
    assert_eq!(
        handler.process_request_internal(call("adv_get_saved_blocks")),
        store("adv_get_saved_blocks", NetworkAdversarialMessage::AdvGetSavedBlocks)
    );
    assert_eq!(
        handler.process_request_internal(call("adv_check_store")),
        store("adv_check_store", NetworkAdversarialMessage::AdvCheckStorageConsistency)
    );
    assert_eq!(
        handler.process_request_internal(call("adv_produce_blocks")),
        parse(Method::Adversarial(AdversarialMethod::ProduceBlocks), "adv_produce_blocks")
    );
    assert_eq!(
        handler.process_request_internal(call("adv_switch_to_height")),
        parse(Method::Adversarial(AdversarialMethod::SwitchToHeight), "adv_switch_to_height")
    );
}

#[test]
fn request_is_handled_under_its_id() {
    let message =
        Message::Request(Request { id: Value::from("dontcare"), call: call("gas_price") });
    assert_eq!(
        handler(false, false).process(message),
        Processing::Handle {
            id: Value::from("dontcare"),
            step: parse(Method::Basic(BasicMethod::GasPrice), "gas_price"),
        }
    );
    assert_eq!(
        JsonRpcHandler::respond(Value::from("dontcare"), Ok(Value::from(5))),
        RpcMessage::Response { id: Value::from("dontcare"), result: Ok(Value::from(5)) }
    );
}

#[test]
fn what_is_no_request_is_an_error() {
    assert_eq!(
        handler(false, false).process(Message::Other),
        Processing::Answer(RpcMessage::Error {
            error: RpcError::ParseError {
                message: "JSON RPC Request format was expected".to_string(),
            },
        })
    );
}
