use wafer::block::BlockInfo;
use wafer::meta::Meta;
use wafer::types::{
    Action, InstanceMode, LifecycleEvent, LifecycleType, Message, Response, Result_, WaferError,
};
use wafer::wasm::format::{
    block_info_from_wasm, lifecycle_event_to_wasm, message_from_wasm, message_to_wasm,
    result_from_wasm, result_to_wasm, WasmBlockInfo, WasmError, WasmMessage, WasmResponse,
    WasmResult,
};

fn pair(key: &str, value: &str) -> [String; 2] {
    [key.to_string(), value.to_string()]
}

fn meta(pairs: &[(&str, &str)]) -> Meta {
    let mut meta = Meta::new();
    for (key, value) in pairs {
        meta.insert(key.to_string(), value.to_string());
    }
    meta
}

#[test]
fn messages_cross_the_boundary() {
    let msg = Message {
        kind: "http.request".to_string(),
        data: b"body".to_vec(),
        meta: meta(&[("path", "/"), ("method", "GET")]),
    };
    let wire = message_to_wasm(&msg);
    assert_eq!(wire.kind, "http.request");
    assert_eq!(wire.data, b"body".to_vec());
    let mut pairs = wire.meta.clone();
    pairs.sort();
    assert_eq!(pairs, vec![pair("method", "GET"), pair("path", "/")]);
    let back = message_from_wasm(wire);
    assert_eq!(back.kind, "http.request");
    assert_eq!(back.data, b"body".to_vec());
    assert_eq!(back.get_meta("path"), "/");
    assert_eq!(back.get_meta("method"), "GET");
    assert_eq!(back.get_meta("absent"), "");
}

#[test]
fn a_message_takes_the_last_of_repeated_keys() {
    let msg = message_from_wasm(WasmMessage {
        kind: "k".to_string(),
        data: vec![],
        meta: vec![pair("a", "1"), pair("a", "2")],
    });
    assert_eq!(msg.get_meta("a"), "2");
}

#[test]
fn results_cross_the_boundary_without_the_message() {
    let result = Result_ {
        action: Action::Respond,
        response: Some(Response { data: b"ok".to_vec(), meta: meta(&[("status", "200")]) }),
        error: Some(WaferError {
            code: "odd".to_string(),
            message: "both".to_string(),
            meta: meta(&[("x", "y")]),
        }),
        message: Some(Message { kind: "m".to_string(), data: vec![], meta: Meta::new() }),
    };
    let wire = result_to_wasm(&result);
    assert_eq!(wire.action, "respond");
    let back = result_from_wasm(wire);
    assert_eq!(back.action, Action::Respond);
    let response = back.response.unwrap();
    assert_eq!(response.data, b"ok".to_vec());
    assert_eq!(response.meta.get("status").map(|v| v.as_str()), Some("200"));
    let error = back.error.unwrap();
    assert_eq!(error.code, "odd");
    assert_eq!(error.message, "both");
    assert_eq!(error.meta.get("x").map(|v| v.as_str()), Some("y"));
    assert!(back.message.is_none());
}

#[test]
fn empty_results_stay_empty() {
    let wire = result_to_wasm(&Result_ {
        action: Action::Continue,
        response: None,
        error: None,
        message: None,
    });
    assert_eq!(wire.action, "continue");
    assert!(wire.response.is_none());
    assert!(wire.error.is_none());
}

#[test]
fn actions_have_names() {
    for (action, name) in [
        (Action::Continue, "continue"),
        (Action::Respond, "respond"),
        (Action::Drop, "drop"),
        (Action::Error, "error"),
    ] {
        assert_eq!(action.to_string(), name);
        assert_eq!(Action::parse(name), action);
    }
    assert_eq!(Action::parse("retry"), Action::Continue);
    assert_eq!(Action::parse("RESPOND"), Action::Continue);
    assert_eq!(Action::parse(""), Action::Continue);
}

#[test]
fn an_unknown_action_continues() {
    let result = result_from_wasm(WasmResult {
        action: "explode".to_string(),
        response: Some(WasmResponse { data: vec![1], meta: vec![] }),
        error: Some(WasmError {
            code: "c".to_string(),
            message: "m".to_string(),
            meta: vec![pair("k", "1"), pair("k", "2")],
        }),
    });
    assert_eq!(result.action, Action::Continue);
    assert_eq!(result.response.unwrap().data, vec![1]);
    assert_eq!(result.error.unwrap().meta.get("k").map(|v| v.as_str()), Some("2"));
}

fn wire_info(mode: &str, allowed: &[&str]) -> BlockInfo {
    block_info_from_wasm(WasmBlockInfo {
        name: "n".to_string(),
        version: "1.2.3".to_string(),
        interface: "i@v1".to_string(),
        summary: "s".to_string(),
        instance_mode: mode.to_string(),
        allowed_modes: allowed.iter().map(|m| m.to_string()).collect(),
    })
}

#[test]
fn self_descriptions_are_read() {
    let info = wire_info("singleton", &["per-node", "bogus", "per-chain", "per-execution"]);
    assert_eq!(info.name, "n");
    assert_eq!(info.version, "1.2.3");
    assert_eq!(info.interface, "i@v1");
    assert_eq!(info.summary, "s");
    assert_eq!(info.instance_mode, InstanceMode::Singleton);
    assert_eq!(
        info.allowed_modes,
        vec![InstanceMode::PerNode, InstanceMode::PerChain, InstanceMode::PerExecution]
    );
    assert!(info.admin_ui.is_none());
    let copy = info.clone();
    assert_eq!(copy.allowed_modes, info.allowed_modes);
    assert_eq!(copy.name, "n");
}

#[test]
fn an_unknown_mode_is_per_node() {
    assert_eq!(wire_info("", &[]).instance_mode, InstanceMode::PerNode);
    assert_eq!(wire_info("per-galaxy", &["x", "y"]).instance_mode, InstanceMode::PerNode);
    assert!(wire_info("", &["x", "y"]).allowed_modes.is_empty());
    assert_eq!(InstanceMode::parse("per-galaxy"), None);
}

#[test]
fn lifecycle_events_are_named() {
    for (event_type, name) in [
        (LifecycleType::Init, "init"),
        (LifecycleType::Start, "start"),
        (LifecycleType::Stop, "stop"),
    ] {
        let wire = lifecycle_event_to_wasm(&LifecycleEvent { event_type, data: vec![1, 2] });
        assert_eq!(wire.event_type, name);
        assert_eq!(wire.data, vec![1, 2]);
    }
}

#[test]
fn an_error_hands_the_message_back() {
    let msg = Message { kind: "k".to_string(), data: vec![9], meta: meta(&[("a", "b")]) };
    let result = msg.clone().err(WaferError::new("code", "text".to_string()));
    assert_eq!(result.action, Action::Error);
    assert!(result.response.is_none());
    let error = result.error.unwrap();
    assert_eq!(error.code, "code");
    assert_eq!(error.message, "text");
    assert!(error.meta.to_pairs().is_empty());
    let back = result.message.unwrap();
    assert_eq!(back.kind, "k");
    assert_eq!(back.data, vec![9]);
    assert_eq!(back.get_meta("a"), "b");
}
