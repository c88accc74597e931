//! The values that cross the guest boundary, and what they stand for.
use vstd::prelude::*;

use crate::block::{BlockInfo, BlockInfoView};
use crate::meta::{lists, pairs_map, wire_pairs, Meta};
use crate::text::copy_bytes;
use crate::types::{
    action_name_is_read_back, Action, ErrorView, InstanceMode, LifecycleEvent, LifecycleType,
    Message, MessageView, Response, ResponseView, ResultView, Result_, WaferError,
};

verus! {

/// A message on the guest boundary.
#[derive(Debug)]
pub struct WasmMessage {
    pub kind: String,
    pub data: Vec<u8>,
    pub meta: Vec<[String; 2]>,
}

/// A result on the guest boundary.
#[derive(Debug)]
pub struct WasmResult {
    pub action: String,
    pub response: Option<WasmResponse>,
    pub error: Option<WasmError>,
}

/// A response on the guest boundary.
#[derive(Debug)]
pub struct WasmResponse {
    pub data: Vec<u8>,
    pub meta: Vec<[String; 2]>,
}

/// An error on the guest boundary.
#[derive(Debug)]
pub struct WasmError {
    pub code: String,
    pub message: String,
    pub meta: Vec<[String; 2]>,
}

/// The self-description of a block on the guest boundary.
#[derive(Debug)]
pub struct WasmBlockInfo {
    pub name: String,
    pub version: String,
    pub interface: String,
    pub summary: String,
    pub instance_mode: String,
    pub allowed_modes: Vec<String>,
}

/// A lifecycle event on the guest boundary.
#[derive(Debug)]
pub struct WasmLifecycleEvent {
    pub event_type: String,
    pub data: Vec<u8>,
}

/// What a guest answers to a lifecycle event.
#[derive(Debug)]
pub struct LcResult {
    pub ok: bool,
    pub error: String,
}

impl WasmMessage {
    /// The message that is written. Of two pairs with the same key the later
    /// one counts.
    pub open spec fn meaning(self) -> MessageView {
        MessageView {
            kind: self.kind@,
            data: self.data@,
            meta: pairs_map(wire_pairs(self.meta@)),
        }
    }

    /// Whether this is a way to write the message: its metadata is listed, each
    /// key once, in some order.
    pub open spec fn writes(self, msg: MessageView) -> bool {
        &&& self.kind@ == msg.kind
        &&& self.data@ == msg.data
        &&& lists(wire_pairs(self.meta@), msg.meta)
    }
}

impl WasmResponse {
    /// The response that is written.
    pub open spec fn meaning(self) -> ResponseView {
        ResponseView { data: self.data@, meta: pairs_map(wire_pairs(self.meta@)) }
    }

    /// Whether this is a way to write the response.
    pub open spec fn writes(self, response: ResponseView) -> bool {
        &&& self.data@ == response.data
        &&& lists(wire_pairs(self.meta@), response.meta)
    }
}

impl WasmError {
    /// The error that is written.
    pub open spec fn meaning(self) -> ErrorView {
        ErrorView {
            code: self.code@,
            message: self.message@,
            meta: pairs_map(wire_pairs(self.meta@)),
        }
    }

    /// Whether this is a way to write the error.
    pub open spec fn writes(self, error: ErrorView) -> bool {
        &&& self.code@ == error.code
        &&& self.message@ == error.message
        &&& lists(wire_pairs(self.meta@), error.meta)
    }
}

impl WasmResult {
    /// The result that is written. An action that has no such name continues.
    pub open spec fn meaning(self) -> ResultView {
        ResultView {
            action: Action::named(self.action@),
            response: match self.response {
                Some(response) => Some(response.meaning()),
                None => None,
            },
            error: match self.error {
                Some(error) => Some(error.meaning()),
                None => None,
            },
            message: None,
        }
    }

    /// Whether this is a way to write the result. The message that a result
    /// hands back does not cross the boundary.
    pub open spec fn writes(self, result: ResultView) -> bool {
        &&& self.action@ == result.action.name()
        &&& match result.response {
            Some(response) => self.response is Some && self.response->0.writes(response),
            None => self.response is None,
        }
        &&& match result.error {
            Some(error) => self.error is Some && self.error->0.writes(error),
            None => self.error is None,
        }
    }
}

/// The modes of a list of names. A name that no mode has is left out.
pub open spec fn modes_named(names: Seq<String>) -> Seq<InstanceMode>
    decreases names.len(),
{
    if names.len() == 0 {
        Seq::empty()
    } else {
        let before = modes_named(names.drop_last());
        match InstanceMode::named(names.last()@) {
            Some(mode) => before.push(mode),
            None => before,
        }
    }
}

impl WasmBlockInfo {
    /// The self-description that is written. A mode that has no such name is
    /// one instance per node.
    pub open spec fn meaning(self) -> BlockInfoView {
        BlockInfoView {
            name: self.name@,
            version: self.version@,
            interface: self.interface@,
            summary: self.summary@,
            instance_mode: match InstanceMode::named(self.instance_mode@) {
                Some(mode) => mode,
                None => InstanceMode::PerNode,
            },
            allowed_modes: modes_named(self.allowed_modes@),
            admin_ui: None,
        }
    }
}

/// Writes a message for the guest boundary.
pub fn message_to_wasm(msg: &Message) -> (r: WasmMessage)
    ensures
        r.writes(msg@),
{
    WasmMessage {
        kind: msg.kind.clone(),
        data: copy_bytes(msg.data.as_slice()),
        meta: msg.meta.to_pairs(),
    }
}

/// Reads a message from the guest boundary.
pub fn message_from_wasm(wm: WasmMessage) -> (r: Message)
    ensures
        r@ == wm.meaning(),
{
    let meta = Meta::from_pairs(&wm.meta);
    Message { kind: wm.kind, data: wm.data, meta }
}

/// Writes a result for the guest boundary.
pub fn result_to_wasm(r: &Result_) -> (wr: WasmResult)
    ensures
        wr.writes(r@),
{
    let response = match &r.response {
        Some(response) => Some(
            WasmResponse {
                data: copy_bytes(response.data.as_slice()),
                meta: response.meta.to_pairs(),
            },
        ),
        None => None,
    };
    let error = match &r.error {
        Some(error) => Some(
            WasmError {
                code: error.code.clone(),
                message: error.message.clone(),
                meta: error.meta.to_pairs(),
            },
        ),
        None => None,
    };
    WasmResult { action: r.action.to_string(), response, error }
}

/// Reads a result from the guest boundary.
pub fn result_from_wasm(wr: WasmResult) -> (r: Result_)
    ensures
        r@ == wr.meaning(),
{
    let action = Action::parse(wr.action.as_str());
    let response = match wr.response {
        Some(response) => {
            let meta = Meta::from_pairs(&response.meta);
            Some(Response { data: response.data, meta })
        },
        None => None,
    };
    let error = match wr.error {
        Some(error) => {
            let meta = Meta::from_pairs(&error.meta);
            Some(WaferError { code: error.code, message: error.message, meta })
        },
        None => None,
    };
    Result_ { action, response, error, message: None }
}

/// Reads the self-description of a block from the guest boundary.
pub fn block_info_from_wasm(wbi: WasmBlockInfo) -> (r: BlockInfo)
    ensures
        r@ == wbi.meaning(),
{
    let instance_mode = match InstanceMode::parse(wbi.instance_mode.as_str()) {
        Some(mode) => mode,
        None => InstanceMode::PerNode,
    };
    let names = &wbi.allowed_modes;
    let mut allowed_modes: Vec<InstanceMode> = Vec::new();
    let n: usize = names.len();
    let mut i: usize = 0;
    assert(modes_named(names@.take(0)) =~= allowed_modes@);
    while i < n
        invariant
            i <= n,
            n == names@.len(),
            allowed_modes@ == modes_named(names@.take(i as int)),
        decreases n - i,
    {
        if let Some(mode) = InstanceMode::parse(names[i].as_str()) {
            allowed_modes.push(mode);
        }
        assert(names@.take(i + 1).drop_last() =~= names@.take(i as int));
        i = i + 1;
    }
    assert(names@.take(n as int) =~= names@);
    BlockInfo {
        name: wbi.name,
        version: wbi.version,
        interface: wbi.interface,
        summary: wbi.summary,
        instance_mode,
        allowed_modes,
        admin_ui: None,
    }
}

/// Writes a lifecycle event for the guest boundary.
pub fn lifecycle_event_to_wasm(event: &LifecycleEvent) -> (r: WasmLifecycleEvent)
    ensures
        r.event_type@ == event.event_type.name(),
        r.data@ == event.data@,
{
    let name = match event.event_type {
        LifecycleType::Init => "init",
        LifecycleType::Start => "start",
        LifecycleType::Stop => "stop",
    };
    WasmLifecycleEvent { event_type: name.to_owned(), data: copy_bytes(event.data.as_slice()) }
}

/// However a message is written for the boundary, reading it gives the message
/// back.
pub proof fn message_is_read_back(msg: MessageView, wire: WasmMessage)
    requires
        wire.writes(msg),
    ensures
        wire.meaning() == msg,
{
}

/// However a result is written for the boundary, reading it gives the result
/// back, without the message that it hands back.
pub proof fn result_is_read_back(result: ResultView, wire: WasmResult)
    requires
        wire.writes(result),
    ensures
        wire.meaning() == (ResultView { message: None, ..result }),
{
    action_name_is_read_back(result.action);
}

} // verus!
