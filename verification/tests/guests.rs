use std::sync::{Arc, Mutex};

use wafer::block::BlockInfo;
use wafer::context::{CapabilityInfo, Context};
use wafer::meta::Meta;
use wafer::services::Services;
use wafer::types::{Action, InstanceMode, Message, Response, Result_, WaferError};
use wafer::wasm::format::{LcResult, WasmBlockInfo, WasmMessage, WasmResponse, WasmResult};
use wafer::wasm::guest::HostState;
use wafer::wasm::host::{
    answer_message, encode_refusal, error_result, guest_capabilities, guest_is_cancelled,
    hand_back, take_message, Refusal, MAX_WASM_MSG_SIZE,
};
use wafer::wasm::info::{InfoCache, InfoStep};
use wafer::wasm::loader::{ask_info, check_exports, host_linker, WASMBlock};
use wafer::wasm::memory::{read_from_memory, write_to_memory};
use wasmtime::{Caller, Config, Engine, Linker};

const MEMORY: &str = "(memory (export \"memory\") 1)";
const MALLOC: &str = "(global $next (mut i32) (i32.const 1024))
    (func (export \"malloc\") (param $n i32) (result i32) (local $p i32)
        (local.set $p (global.get $next))
        (global.set $next (i32.add (local.get $p) (local.get $n)))
        (local.get $p))";
const INFO: &str = "(data (i32.const 16) \"{about}\")
    (func (export \"info\") (result i64) (i64.const 0x1000000007))";
const ECHO: &str = "(func (export \"handle\") (param i32 i32) (result i64)
    (i64.or (i64.shl (i64.extend_i32_u (local.get 0)) (i64.const 32))
        (i64.extend_i32_u (local.get 1))))";
const LIFECYCLE: &str =
    "(func (export \"lifecycle\") (param i32 i32) (result i64) (i64.const 0))";

fn module(parts: &[&str]) -> String {
    format!("(module {})", parts.join("\n"))
}

/// A linker whose memories take no more room than they need.
fn small_linker() -> Linker<HostState> {
    let mut config = Config::new();
    config.memory_reservation(0);
    config.memory_reservation_for_growth(0);
    config.memory_guard_size(0);
    match Engine::new(&config) {
        Ok(engine) => Linker::new(&engine),
        Err(e) => panic!("{}", e),
    }
}

fn load(parts: &[&str]) -> Result<WASMBlock, String> {
    WASMBlock::load_from_bytes(module(parts).as_bytes(), small_linker())
}

fn block(parts: &[&str]) -> WASMBlock {
    match load(parts) {
        Ok(block) => block,
        Err(text) => panic!("{}", text),
    }
}

fn state() -> HostState {
    HostState { context: None }
}

fn message() -> Message {
    let mut meta = Meta::new();
    meta.insert("k".to_string(), "v".to_string());
    Message { kind: "m".to_string(), data: vec![1], meta }
}

fn complaint(result: Result_) -> (String, String) {
    assert_eq!(result.action, Action::Error);
    assert!(result.response.is_none());
    let back = result.message.unwrap();
    assert_eq!(back.kind, "m");
    assert_eq!(back.data, vec![1]);
    assert_eq!(back.get_meta("k"), "v");
    let error = result.error.unwrap();
    assert!(error.meta.to_pairs().is_empty());
    (error.code, error.message)
}

fn handle(block: &WASMBlock, data: &[u8]) -> Result<Vec<u8>, (String, String)> {
    let msg = message();
    let call = match block.handle_start(state(), &msg) {
        Ok(call) => call,
        Err(result) => return Err(complaint(result)),
    };
    match WASMBlock::handle_run(call, Ok(data.to_vec()), &msg).0 {
        Ok(bytes) => Ok(bytes),
        Err(result) => Err(complaint(result)),
    }
}

fn tell(block: &WASMBlock, data: &[u8]) -> Result<Option<Vec<u8>>, (String, String)> {
    let plain = |e: WaferError| (e.code, e.message);
    match block.lifecycle_start(state()).map_err(plain)? {
        Some(call) => WASMBlock::lifecycle_run(call, Ok(data.to_vec())).0.map_err(plain),
        None => Ok(None),
    }
}

fn pair(code: &str, text: &str) -> (String, String) {
    (code.to_string(), text.to_string())
}

#[test]
fn bytes_that_are_no_module_are_refused() {
    let text = WASMBlock::load_from_bytes(b"\0asm garbage", host_linker()).err().unwrap();
    assert!(text.starts_with("compiling WASM module: "), "{}", text);
}

#[test]
fn every_required_export_is_asked_for_in_order() {
    let missing = |parts: &[&str]| load(parts).err();
    let complaint = |name: &str| Some(format!("WASM module missing required export: {}", name));
    assert_eq!(missing(&[]), complaint("info"));
    assert_eq!(missing(&[MEMORY, INFO]), complaint("handle"));
    assert_eq!(missing(&[MEMORY, INFO, ECHO]), complaint("lifecycle"));
    assert_eq!(missing(&[MEMORY, INFO, ECHO, LIFECYCLE]), complaint("malloc"));
    assert_eq!(missing(&[MEMORY, ECHO, LIFECYCLE, MALLOC]), complaint("info"));
    assert_eq!(missing(&[MEMORY, INFO, ECHO, LIFECYCLE, MALLOC]), None);
    let text = module(&[MEMORY, INFO, ECHO, LIFECYCLE, MALLOC]);
    assert!(WASMBlock::load_from_bytes(text.as_bytes(), host_linker()).is_ok());
}

#[test]
fn exports_are_checked_by_name() {
    let names = |list: &[&str]| list.iter().map(|n| n.to_string()).collect::<Vec<String>>();
    assert_eq!(check_exports(&names(&["malloc", "lifecycle", "x", "handle", "info"])), Ok(()));
    assert_eq!(
        check_exports(&names(&["info", "handles", "lifecycle", "malloc"])),
        Err("WASM module missing required export: handle".to_string())
    );
}

#[test]
fn unmet_imports_prevent_an_instance() {
    let lonely = "(import \"nowhere\" \"f\" (func))";
    let block = block(&[lonely, MEMORY, INFO, ECHO, LIFECYCLE, MALLOC]);
    let text = block.create_instance(state()).err().unwrap();
    assert!(text.starts_with("instantiating WASM module: "), "{}", text);
    let info = block.info_bytes().err().unwrap();
    assert!(info.summary.starts_with("failed to create instance: instantiating WASM module: "));
    let (code, text) = handle(&block, b"").err().unwrap();
    assert_eq!(code, "wasm_error");
    assert!(text.starts_with("instantiating WASM module: "), "{}", text);
    let (code, text) = tell(&block, b"").err().unwrap();
    assert_eq!(code, "wasm_error");
    assert!(text.starts_with("instantiating WASM module: "), "{}", text);
}

#[test]
fn a_block_describes_itself() {
    let block = block(&[MEMORY, INFO, ECHO, LIFECYCLE, MALLOC]);
    assert_eq!(block.info_bytes().ok(), Some(b"{about}".to_vec()));
    let (mut store, instance) = block.create_instance(state()).ok().unwrap();
    assert_eq!(ask_info(&mut store, &instance), Ok(b"{about}".to_vec()));
}

fn no_info(info: &str) -> String {
    let found = block(&[MEMORY, info, ECHO, LIFECYCLE, MALLOC]).info_bytes().err().unwrap();
    assert_eq!(found.name, "unknown");
    assert_eq!(found.version, "0.0.0");
    assert_eq!(found.interface, "error");
    assert_eq!(found.instance_mode, InstanceMode::PerNode);
    assert!(found.allowed_modes.is_empty());
    assert!(found.admin_ui.is_none());
    found.summary
}

#[test]
fn a_block_that_cannot_describe_itself_is_unknown() {
    assert_eq!(
        no_info("(func (export \"info\") (result i32) (i32.const 0))"),
        "info export not found: failed to convert function `info` to given type"
    );
    assert_eq!(
        no_info("(global (export \"info\") i32 (i32.const 0))"),
        "info export not found: failed to find function export `info`"
    );
    let trapped = no_info("(func (export \"info\") (result i64) unreachable)");
    assert!(trapped.starts_with("calling info failed: "), "{}", trapped);
    assert_eq!(
        no_info("(func (export \"info\") (result i64) (i64.const 0xfffa0000000a))"),
        "reading info from memory: failed to read 10 bytes at offset 65530: \
         out of bounds memory access"
    );
}

fn wire_info(name: &str) -> WasmBlockInfo {
    WasmBlockInfo {
        name: name.to_string(),
        version: "1".to_string(),
        interface: "i".to_string(),
        summary: "s".to_string(),
        instance_mode: "per-chain".to_string(),
        allowed_modes: vec![],
    }
}

fn known(step: InfoStep) -> Option<BlockInfo> {
    match step {
        InfoStep::Known(info) => Some(info),
        InfoStep::Ask => None,
    }
}

#[test]
fn a_self_description_is_kept_once_it_was_read() {
    let mut cache = InfoCache::new();
    assert!(known(cache.begin()).is_none());
    let info = cache.record(Ok(wire_info("n")));
    assert_eq!(info.name, "n");
    assert_eq!(info.instance_mode, InstanceMode::PerChain);
    for _ in 0..3 {
        let again = known(cache.begin()).unwrap();
        assert_eq!(again.name, "n");
        assert_eq!(again.version, "1");
        assert_eq!(again.instance_mode, InstanceMode::PerChain);
    }
    assert_eq!(cache.record(Err("bad".to_string())).name, "unknown");
    assert_eq!(known(cache.begin()).unwrap().name, "n");
}

#[test]
fn a_self_description_that_stands_in_is_not_kept() {
    let mut cache = InfoCache::new();
    let info = cache.record(Err("bad".to_string()));
    assert_eq!(info.name, "unknown");
    assert_eq!(info.summary, "parsing info: bad");
    assert!(known(cache.begin()).is_none());
}

#[test]
fn a_block_handles_bytes() {
    let block = block(&[MEMORY, INFO, ECHO, LIFECYCLE, MALLOC]);
    assert_eq!(handle(&block, b"hello"), Ok(b"hello".to_vec()));
    assert_eq!(handle(&block, b""), Ok(vec![]));
    let large = vec![7u8; 60_000];
    assert_eq!(handle(&block, &large), Ok(large));
}

#[test]
fn each_call_runs_in_an_instance_of_its_own() {
    // Writes how often it was called, in a global and at a fixed place, and
    // answers with both.
    let counter = "(global $calls (mut i32) (i32.const 0))
        (func $count (result i64)
            (global.set $calls (i32.add (global.get $calls) (i32.const 1)))
            (i32.store8 (i32.const 200) (global.get $calls))
            (i32.store8 (i32.const 201)
                (i32.add (i32.load8_u (i32.const 201)) (i32.const 1)))
            (i64.const 0xc800000002))
        (func (export \"handle\") (param i32 i32) (result i64) (call $count))
        (func (export \"lifecycle\") (param i32 i32) (result i64) (call $count))
        (func (export \"info\") (result i64) (call $count))";
    let block = block(&[MEMORY, MALLOC, counter]);
    assert_eq!(handle(&block, b"x"), Ok(vec![1, 1]));
    assert_eq!(handle(&block, b"x"), Ok(vec![1, 1]));
    assert_eq!(tell(&block, b"x"), Ok(Some(vec![1, 1])));
    assert_eq!(block.info_bytes().ok(), Some(vec![1, 1]));
    assert_eq!(handle(&block, b"x"), Ok(vec![1, 1]));
}

#[test]
fn a_message_that_does_not_fit_is_a_memory_error() {
    let echo = block(&[MEMORY, INFO, ECHO, LIFECYCLE, MALLOC]);
    assert_eq!(
        handle(&echo, &vec![0u8; 70_000]),
        Err(pair(
            "wasm_memory_error",
            "failed to write 70000 bytes at offset 1024: out of bounds memory access"
        ))
    );
    let negative = "(func (export \"malloc\") (param i32) (result i32) (i32.const -1))";
    assert_eq!(
        handle(&block(&[MEMORY, INFO, ECHO, LIFECYCLE, negative]), b"abc"),
        Err(pair(
            "wasm_memory_error",
            "failed to write 3 bytes at offset -1: out of bounds memory access"
        ))
    );
    let trapping = "(func (export \"malloc\") (param i32) (result i32) unreachable)";
    let (code, text) =
        handle(&block(&[MEMORY, INFO, ECHO, LIFECYCLE, trapping]), b"abc").err().unwrap();
    assert_eq!(code, "wasm_memory_error");
    assert!(text.starts_with("malloc failed: "), "{}", text);
    let odd = "(func (export \"malloc\"))";
    assert_eq!(
        handle(&block(&[MEMORY, INFO, ECHO, LIFECYCLE, odd]), b"abc"),
        Err(pair(
            "wasm_memory_error",
            "malloc not found: failed to convert function `malloc` to given type"
        ))
    );
    let hidden = "(memory 1)";
    assert_eq!(
        handle(&block(&[hidden, INFO, ECHO, LIFECYCLE, MALLOC]), b"abc"),
        Err(pair("wasm_memory_error", "memory not found"))
    );
}

#[test]
fn a_message_that_cannot_be_encoded_is_a_memory_error() {
    let block = block(&[MEMORY, INFO, ECHO, LIFECYCLE, MALLOC]);
    let msg = message();
    let call = block.handle_start(state(), &msg).ok().unwrap();
    let result = WASMBlock::handle_run(call, Err("bad".to_string()), &msg).0.err().unwrap();
    assert_eq!(complaint(result), pair("wasm_memory_error", "bad"));
}

#[test]
fn a_failing_handler_is_a_call_error() {
    let trapping = "(func (export \"handle\") (param i32 i32) (result i64) unreachable)";
    let (code, text) =
        handle(&block(&[MEMORY, INFO, trapping, LIFECYCLE, MALLOC]), b"x").err().unwrap();
    assert_eq!(code, "wasm_call_error");
    assert!(text.starts_with("calling handle: "), "{}", text);
    let odd = "(func (export \"handle\"))";
    assert_eq!(
        handle(&block(&[MEMORY, INFO, odd, LIFECYCLE, MALLOC]), b"x"),
        Err(pair(
            "wasm_error",
            "handle export not found: failed to convert function `handle` to given type"
        ))
    );
}

#[test]
fn an_answer_beyond_the_memory_is_a_decode_error() {
    let far = "(func (export \"handle\") (param i32 i32) (result i64) (i64.const 0xffffffff00000001))";
    assert_eq!(
        handle(&block(&[MEMORY, INFO, far, LIFECYCLE, MALLOC]), b"x"),
        Err(pair(
            "wasm_decode_error",
            "failed to read 1 bytes at offset 4294967295: out of bounds memory access"
        ))
    );
}

#[test]
fn a_result_hands_the_message_back() {
    let msg = message();
    let result = WASMBlock::handle_finish(
        Ok(WasmResult {
            action: "respond".to_string(),
            response: Some(WasmResponse { data: vec![5], meta: vec![] }),
            error: None,
        }),
        &msg,
    );
    assert_eq!(result.action, Action::Respond);
    assert_eq!(result.response.unwrap().data, vec![5]);
    assert!(result.error.is_none());
    assert_eq!(result.message.unwrap().get_meta("k"), "v");
    let result = WASMBlock::handle_finish(Err("bad".to_string()), &msg);
    assert_eq!(complaint(result), pair("wasm_decode_error", "reading result: bad"));
}

#[test]
fn a_block_is_told_of_events() {
    let silent = block(&[MEMORY, INFO, ECHO, LIFECYCLE, MALLOC]);
    assert_eq!(tell(&silent, b"init"), Ok(None));
    let echo = ECHO.replace("handle", "lifecycle");
    let talking = block(&[MEMORY, INFO, ECHO, &echo, MALLOC]);
    assert_eq!(tell(&talking, b"init"), Ok(Some(b"init".to_vec())));
    assert_eq!(tell(&talking, b""), Ok(None));
    let odd = block(&[MEMORY, INFO, ECHO, "(func (export \"lifecycle\"))", MALLOC]);
    assert_eq!(tell(&odd, b"init"), Ok(None));
}

#[test]
fn lifecycle_failures_are_reported() {
    let lifecycle = |body: &str| {
        let part = format!("(func (export \"lifecycle\") (param i32 i32) (result i64) {})", body);
        block(&[MEMORY, INFO, ECHO, &part, MALLOC])
    };
    let (code, text) = tell(&lifecycle("unreachable"), b"x").err().unwrap();
    assert_eq!(code, "wasm_error");
    assert!(text.starts_with("calling lifecycle: "), "{}", text);
    assert_eq!(
        tell(&lifecycle("(i64.const 0xffff00000002)"), b"x"),
        Err(pair(
            "wasm_error",
            "failed to read 2 bytes at offset 65535: out of bounds memory access"
        ))
    );
    assert_eq!(tell(&lifecycle("(i64.const -1)"), b"x"), Ok(None));
    assert_eq!(
        tell(&lifecycle("(i64.const 0)"), &vec![0u8; 70_000]),
        Err(pair(
            "wasm_error",
            "failed to write 70000 bytes at offset 1024: out of bounds memory access"
        ))
    );
    let call = lifecycle("(i64.const 0)").lifecycle_start(state()).ok().unwrap().unwrap();
    let error = WASMBlock::lifecycle_run(call, Err("bad".to_string())).0.err().unwrap();
    assert_eq!(error.code, "wasm_error");
    assert_eq!(error.message, "marshaling lifecycle event: bad");
}

#[test]
fn only_an_error_text_is_a_lifecycle_error() {
    let answer = |ok: bool, error: &str| LcResult { ok, error: error.to_string() };
    assert!(WASMBlock::lifecycle_finish(Ok(answer(true, ""))).is_ok());
    assert!(WASMBlock::lifecycle_finish(Ok(answer(false, ""))).is_ok());
    assert!(WASMBlock::lifecycle_finish(Err("bad".to_string())).is_ok());
    let error = WASMBlock::lifecycle_finish(Ok(answer(true, "no"))).err().unwrap();
    assert_eq!(error.code, "lifecycle_error");
    assert_eq!(error.message, "no");
}

#[test]
fn bytes_that_were_handed_over_are_taken_back() {
    let block = block(&[MEMORY, INFO, ECHO, LIFECYCLE, MALLOC]);
    let (mut store, instance) = block.create_instance(state()).ok().unwrap();
    let first = write_to_memory(&mut store, &instance, b"one").unwrap();
    let second = write_to_memory(&mut store, &instance, b"two!").unwrap();
    assert_eq!(first, (1024, 3));
    assert_eq!(second, (1027, 4));
    assert_eq!(read_from_memory(&mut store, &instance, 1024, 3), Ok(b"one".to_vec()));
    assert_eq!(read_from_memory(&mut store, &instance, 1027, 4), Ok(b"two!".to_vec()));
    assert_eq!(read_from_memory(&mut store, &instance, 65536, 0), Ok(vec![]));
    assert_eq!(
        read_from_memory(&mut store, &instance, 65537, 0),
        Err("failed to read 0 bytes at offset 65537: out of bounds memory access".to_string())
    );
}

struct Answering {
    seen: Arc<Mutex<Vec<String>>>,
    cancelled: bool,
}

impl Context for Answering {
    fn send(&self, msg: &Message) -> Result_ {
        self.seen.lock().unwrap().push(format!("{} {:?}", msg.kind, msg.data));
        let mut meta = Meta::new();
        meta.insert("a".to_string(), msg.get_meta("k").to_string());
        Result_ {
            action: Action::Respond,
            response: Some(Response { data: vec![8, 9], meta }),
            error: None,
            message: Some(msg.clone()),
        }
    }

    fn capabilities(&self) -> Vec<CapabilityInfo> {
        vec![CapabilityInfo {
            kind: "fly".to_string(),
            summary: "Fly away".to_string(),
            input: None,
            output: None,
        }]
    }

    fn is_cancelled(&self) -> bool {
        self.cancelled
    }

    fn services(&self) -> Option<&Services> {
        None
    }

    fn config_get(&self, _key: &str) -> Option<&str> {
        None
    }
}

fn answering(cancelled: bool) -> (HostState, Arc<Mutex<Vec<String>>>) {
    let seen = Arc::new(Mutex::new(Vec::new()));
    let context = Answering { seen: seen.clone(), cancelled };
    (HostState { context: Some(Arc::new(context)) }, seen)
}

fn wire_message() -> WasmMessage {
    WasmMessage {
        kind: "m".to_string(),
        data: vec![1],
        meta: vec![["k".to_string(), "v".to_string()]],
    }
}

#[test]
fn a_message_of_a_guest_reaches_the_context() {
    let (state, seen) = answering(false);
    let wr = answer_message(&state, Ok(wire_message())).ok().unwrap();
    assert_eq!(*seen.lock().unwrap(), vec!["m [1]".to_string()]);
    assert_eq!(wr.action, "respond");
    let response = wr.response.unwrap();
    assert_eq!(response.data, vec![8, 9]);
    assert_eq!(response.meta, vec![["a".to_string(), "v".to_string()]]);
    let refusal = answer_message(&state, Err("bad".to_string())).err().unwrap();
    assert_eq!((refusal.code, refusal.message), pair("decode_error", "bad"));
    let refusal = answer_message(&self::state(), Ok(wire_message())).err().unwrap();
    assert_eq!((refusal.code, refusal.message), pair("internal", "no wafer context"));
}

#[test]
fn a_guest_is_told_of_a_refusal() {
    let refusal = encode_refusal("bad".to_string());
    assert_eq!(refusal.code, "encode_error");
    assert_eq!(refusal.message, "bad");
    let wr = error_result(Refusal { code: "c".to_string(), message: "m".to_string() });
    assert_eq!(wr.action, "error");
    assert!(wr.response.is_none());
    let error = wr.error.unwrap();
    assert_eq!(error.code, "c");
    assert_eq!(error.message, "m");
    assert!(error.meta.is_empty());
}

#[test]
fn a_guest_asks_for_capabilities_and_cancellation() {
    let (running, _) = answering(false);
    let (stopped, _) = answering(true);
    assert_eq!(guest_capabilities(&running)[0].kind, "fly");
    assert!(guest_capabilities(&state()).is_empty());
    assert_eq!(guest_is_cancelled(&running), 0);
    assert_eq!(guest_is_cancelled(&stopped), 1);
    assert_eq!(guest_is_cancelled(&state()), 0);
}

const SEND: &str = "(import \"wafer\" \"send\" (func $send (param i32 i32) (result i64)))";

fn echoing_linker() -> Linker<HostState> {
    let mut linker = small_linker();
    let echo = |mut caller: Caller<'_, HostState>, ptr: i32, len: i32| -> i64 {
        match take_message(&mut caller, ptr, len) {
            Ok(bytes) => hand_back(&mut caller, &bytes),
            Err(refusal) => {
                let text = format!("{}: {}", refusal.code, refusal.message);
                hand_back(&mut caller, text.as_bytes())
            }
        }
    };
    match linker.func_wrap("wafer", "send", echo) {
        Ok(_) => linker,
        Err(e) => panic!("{}", e),
    }
}

fn sending(parts: &[&str], send: &str, state: HostState) -> Result<Vec<u8>, (String, String)> {
    let handler =
        format!("(func (export \"handle\") (param i32 i32) (result i64) (call $send {}))", send);
    let mut all = vec![SEND, INFO, LIFECYCLE, handler.as_str()];
    all.extend_from_slice(parts);
    let text = module(&all);
    let block = WASMBlock::load_from_bytes(text.as_bytes(), echoing_linker()).ok().unwrap();
    let msg = message();
    let call = block.handle_start(state, &msg).ok().unwrap();
    WASMBlock::handle_run(call, Ok(b"ping".to_vec()), &msg).0.map_err(complaint)
}

const SAME: &str = "(local.get 0) (local.get 1)";

#[test]
fn a_host_function_takes_and_hands_back_bytes() {
    let (state, _) = answering(false);
    assert_eq!(sending(&[MEMORY, MALLOC], SAME, state), Ok(b"ping".to_vec()));
    let (state, _) = answering(false);
    let near = "(i32.const 16) (i32.const 7)";
    assert_eq!(sending(&[MEMORY, MALLOC], near, state), Ok(b"{about}".to_vec()));
}

#[test]
fn a_host_function_refuses_what_it_cannot_take() {
    let refused = |send: &str, state: HostState| {
        String::from_utf8(sending(&[MEMORY, MALLOC], send, state).unwrap()).unwrap()
    };
    assert_eq!(refused(SAME, state()), "internal: no wafer context");
    let (context, _) = answering(false);
    assert_eq!(
        refused("(i32.const 0) (i32.const 16777217)", context),
        "msg_too_large: message size 16777217 exceeds maximum 16777216"
    );
    let (context, _) = answering(false);
    assert_eq!(
        refused("(i32.const 0) (i32.const -1)", context),
        "msg_too_large: message size -1 exceeds maximum 16777216"
    );
    let (context, _) = answering(false);
    assert_eq!(
        refused("(i32.const 65530) (i32.const 16)", context),
        "memory_error: read failed"
    );
    let (context, _) = answering(false);
    assert_eq!(
        refused("(i32.const 0) (i32.const 16777216)", context),
        "memory_error: read failed"
    );
    let (context, _) = answering(false);
    assert_eq!(refused("(i32.const -1) (i32.const 1)", context), "memory_error: read failed");
    assert_eq!(MAX_WASM_MSG_SIZE, 16 * 1024 * 1024);
}

#[test]
fn a_host_function_that_cannot_answer_gives_zero() {
    // The first allocation, for the message, succeeds; later ones give the
    // memory's last byte.
    let stingy = "(global $used (mut i32) (i32.const 0))
        (func (export \"malloc\") (param i32) (result i32)
            (if (global.get $used) (then (return (i32.const 65535))))
            (global.set $used (i32.const 1))
            (i32.const 1024))";
    let (state, _) = answering(false);
    assert_eq!(sending(&[MEMORY, stingy], SAME, state), Ok(vec![]));
    let trapping = "(global $used (mut i32) (i32.const 0))
        (func (export \"malloc\") (param i32) (result i32)
            (if (global.get $used) (then unreachable))
            (global.set $used (i32.const 1))
            (i32.const 1024))";
    let (state, _) = answering(false);
    assert_eq!(sending(&[MEMORY, trapping], SAME, state), Ok(vec![]));
}
