//! Messages, results and the other values that blocks exchange.
use vstd::prelude::*;
use vstd::string::StringExecFns;

use crate::meta::Meta;
use crate::text::{copy_bytes, text_eq};

verus! {

/// What the runtime does once a block has answered.
#[derive(Debug, Clone, Copy, PartialEq, Eq, Structural)]
pub enum Action {
    Continue,
    Respond,
    Drop,
    Error,
}

impl Action {
    /// The name of an action.
    pub open spec fn name(self) -> Seq<char> {
        match self {
            Action::Continue => "continue"@,
            Action::Respond => "respond"@,
            Action::Drop => "drop"@,
            Action::Error => "error"@,
        }
    }

    /// The action of a name. A name that is none continues.
    pub open spec fn named(name: Seq<char>) -> Self {
        if name == "respond"@ {
            Action::Respond
        } else if name == "drop"@ {
            Action::Drop
        } else if name == "error"@ {
            Action::Error
        } else {
            Action::Continue
        }
    }

    /// The name of the action.
    pub fn to_string(&self) -> (r: String)
        ensures
            r@ == self.name(),
    {
        match self {
            Action::Continue => "continue".to_owned(),
            Action::Respond => "respond".to_owned(),
            Action::Drop => "drop".to_owned(),
            Action::Error => "error".to_owned(),
        }
    }

    /// The action of a name.
    pub fn parse(name: &str) -> (r: Self)
        ensures
            r == Action::named(name@),
    {
        if text_eq(name, "respond") {
            Action::Respond
        } else if text_eq(name, "drop") {
            Action::Drop
        } else if text_eq(name, "error") {
            Action::Error
        } else {
            Action::Continue
        }
    }
}

/// The action of an action's name is that action.
pub proof fn action_name_is_read_back(action: Action)
    ensures
        Action::named(action.name()) == action,
{
    reveal_strlit("continue");
    reveal_strlit("respond");
    reveal_strlit("drop");
    reveal_strlit("error");
    let name = action.name();
    match action {
        Action::Continue => {
            assert(name[0] == 'c');
            assert("respond"@[0] == 'r' && "drop"@[0] == 'd' && "error"@[0] == 'e');
        },
        Action::Respond => {},
        Action::Drop => {
            assert(name[0] == 'd' && "respond"@[0] == 'r');
        },
        Action::Error => {
            assert(name[0] == 'e' && "respond"@[0] == 'r' && "drop"@[0] == 'd');
        },
    }
}

/// How many instances of a block the runtime makes.
#[derive(Debug, Clone, Copy, PartialEq, Eq, Structural)]
pub enum InstanceMode {
    PerNode,
    Singleton,
    PerChain,
    PerExecution,
}

impl InstanceMode {
    /// The mode of a name.
    pub open spec fn named(name: Seq<char>) -> Option<Self> {
        if name == "per-node"@ {
            Some(InstanceMode::PerNode)
        } else if name == "singleton"@ {
            Some(InstanceMode::Singleton)
        } else if name == "per-chain"@ {
            Some(InstanceMode::PerChain)
        } else if name == "per-execution"@ {
            Some(InstanceMode::PerExecution)
        } else {
            None
        }
    }

    /// The mode of a name; `None` where no mode has it.
    pub fn parse(name: &str) -> (r: Option<Self>)
        ensures
            r == InstanceMode::named(name@),
    {
        if text_eq(name, "per-node") {
            Some(InstanceMode::PerNode)
        } else if text_eq(name, "singleton") {
            Some(InstanceMode::Singleton)
        } else if text_eq(name, "per-chain") {
            Some(InstanceMode::PerChain)
        } else if text_eq(name, "per-execution") {
            Some(InstanceMode::PerExecution)
        } else {
            None
        }
    }
}

/// A message that travels from block to block.
#[derive(Debug)]
pub struct Message {
    pub kind: String,
    pub data: Vec<u8>,
    pub meta: Meta,
}

/// What a message holds.
pub struct MessageView {
    pub kind: Seq<char>,
    pub data: Seq<u8>,
    pub meta: Map<Seq<char>, Seq<char>>,
}

impl View for Message {
    type V = MessageView;

    open spec fn view(&self) -> MessageView {
        MessageView { kind: self.kind@, data: self.data@, meta: self.meta@ }
    }
}

impl MessageView {
    /// The metadata under a key, empty where there is none.
    pub open spec fn get_meta(self, key: Seq<char>) -> Seq<char> {
        if self.meta.contains_key(key) {
            self.meta[key]
        } else {
            Seq::empty()
        }
    }
}

impl Clone for Message {
    fn clone(&self) -> (r: Self)
        ensures
            r@ == self@,
    {
        Message {
            kind: self.kind.clone(),
            data: copy_bytes(self.data.as_slice()),
            meta: self.meta.clone(),
        }
    }
}

impl Message {
    /// The metadata under a key, empty where there is none.
    pub fn get_meta(&self, key: &str) -> (r: &str)
        ensures
            r@ == self@.get_meta(key@),
    {
        match self.meta.get(key) {
            Some(value) => value.as_str(),
            None => {
                let empty = "";
                proof {
                    reveal_strlit("");
                }
                assert(empty@ =~= Seq::<char>::empty());
                empty
            },
        }
    }

    /// The result that reports `error` and hands the message back.
    pub fn err(self, error: WaferError) -> (r: Result_)
        ensures
            r@ == ResultView::failed_with(self@, error@),
    {
        Result_ { action: Action::Error, response: None, error: Some(error), message: Some(self) }
    }
}

/// What a block answers with.
#[derive(Debug)]
pub struct Response {
    pub data: Vec<u8>,
    pub meta: Meta,
}

/// What a response holds.
pub struct ResponseView {
    pub data: Seq<u8>,
    pub meta: Map<Seq<char>, Seq<char>>,
}

impl View for Response {
    type V = ResponseView;

    open spec fn view(&self) -> ResponseView {
        ResponseView { data: self.data@, meta: self.meta@ }
    }
}

/// An error that a block or the runtime reports.
#[derive(Debug)]
pub struct WaferError {
    pub code: String,
    pub message: String,
    pub meta: Meta,
}

/// What an error holds.
pub struct ErrorView {
    pub code: Seq<char>,
    pub message: Seq<char>,
    pub meta: Map<Seq<char>, Seq<char>>,
}

impl View for WaferError {
    type V = ErrorView;

    open spec fn view(&self) -> ErrorView {
        ErrorView { code: self.code@, message: self.message@, meta: self.meta@ }
    }
}

impl ErrorView {
    /// An error without metadata.
    pub open spec fn plain(code: Seq<char>, message: Seq<char>) -> Self {
        ErrorView { code, message, meta: Map::empty() }
    }
}

impl WaferError {
    /// An error without metadata.
    pub fn new(code: &str, message: String) -> (r: Self)
        ensures
            r@ == ErrorView::plain(code@, message@),
    {
        WaferError { code: code.to_owned(), message, meta: Meta::new() }
    }
}

/// What a block returns.
#[derive(Debug)]
pub struct Result_ {
    pub action: Action,
    pub response: Option<Response>,
    pub error: Option<WaferError>,
    pub message: Option<Message>,
}

/// What a result holds.
pub struct ResultView {
    pub action: Action,
    pub response: Option<ResponseView>,
    pub error: Option<ErrorView>,
    pub message: Option<MessageView>,
}

impl View for Result_ {
    type V = ResultView;

    open spec fn view(&self) -> ResultView {
        ResultView {
            action: self.action,
            response: match self.response {
                Some(response) => Some(response@),
                None => None,
            },
            error: match self.error {
                Some(error) => Some(error@),
                None => None,
            },
            message: match self.message {
                Some(message) => Some(message@),
                None => None,
            },
        }
    }
}

impl ResultView {
    /// A response with these bytes and no metadata.
    pub open spec fn respond(data: Seq<u8>) -> Self {
        ResultView {
            action: Action::Respond,
            response: Some(ResponseView { data, meta: Map::empty() }),
            error: None,
            message: None,
        }
    }

    /// Nothing to say: the chain goes on.
    pub open spec fn go_on() -> Self {
        ResultView { action: Action::Continue, response: None, error: None, message: None }
    }

    /// An error with this code and text.
    pub open spec fn failed(code: Seq<char>, message: Seq<char>) -> Self {
        ResultView {
            action: Action::Error,
            response: None,
            error: Some(ErrorView::plain(code, message)),
            message: None,
        }
    }

    /// An error that hands the message back.
    pub open spec fn failed_with(message: MessageView, error: ErrorView) -> Self {
        ResultView {
            action: Action::Error,
            response: None,
            error: Some(error),
            message: Some(message),
        }
    }
}

/// A point in the life of a block.
#[derive(Debug, Clone, Copy, PartialEq, Eq, Structural)]
pub enum LifecycleType {
    Init,
    Start,
    Stop,
}

impl LifecycleType {
    /// The name of the point.
    pub open spec fn name(self) -> Seq<char> {
        match self {
            LifecycleType::Init => "init"@,
            LifecycleType::Start => "start"@,
            LifecycleType::Stop => "stop"@,
        }
    }
}

/// Tells a block that a point of its life is reached.
#[derive(Debug)]
pub struct LifecycleEvent {
    pub event_type: LifecycleType,
    pub data: Vec<u8>,
}

} // verus!
