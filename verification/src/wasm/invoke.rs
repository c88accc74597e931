//! Calls of a block's `handle` and `lifecycle` functions.
//!
//! Each call is made in three steps: the instance is made, it is called with
//! the encoded argument, and what it answered is read once it is decoded.
use vstd::prelude::*;

use crate::text::{join, text_eq};
use crate::types::{ErrorView, Message, MessageView, ResultView, Result_, WaferError};
use crate::wasm::format::{result_from_wasm, LcResult, WasmResult};
use crate::wasm::guest::{
    call_handler, error_text, exported_handler, exported_memory, find_handler, guest_error_text,
    handler_may_return, handler_store, initial_bytes, instance_module, instance_store,
    instantiate_may_give, lookup_text, memory_bytes, runs_at_start, same_memories, same_store,
    store_id, store_is_new, store_made_with, HostState,
};
use crate::wasm::loader::{
    answer_taken, bytes_view, freshly_made, instance_complaint, take_answer, WASMBlock,
};
use crate::wasm::memory::{handed, place_view, write_to_memory};
use crate::wasm::packed::{packed, unpack_i64};

verus! {

/// An instance that is about to be called with some bytes.
pub struct GuestCall {
    store: wasmtime::Store<HostState>,
    instance: wasmtime::Instance,
    func: wasmtime::TypedFunc<(i32, i32), i64>,
}

impl GuestCall {
    /// The store that the instance lives in.
    pub closed spec fn store(self) -> wasmtime::Store<HostState> {
        self.store
    }

    /// The instance.
    pub closed spec fn instance(self) -> wasmtime::Instance {
        self.instance
    }

    /// The function that is called.
    pub closed spec fn func(self) -> wasmtime::TypedFunc<(i32, i32), i64> {
        self.func
    }

    #[verifier::type_invariant]
    spec fn parts_share_a_store(self) -> bool {
        &&& instance_store(self.instance) == store_id(self.store)
        &&& handler_store(self.func) == store_id(self.store)
        &&& !store_is_new(self.store)
    }

    /// Whether the call is of the function that an instance of the block exports
    /// under a name. The instance is its own: it was made in a new store that
    /// holds the state, and nothing was run in it since.
    pub open spec fn is_of(self, block: WASMBlock, state: HostState, name: Seq<char>) -> bool {
        &&& instance_module(self.instance()) == block.module()
        &&& store_made_with(self.store()) == state
        &&& exported_handler(self.instance(), name) == Some(self.func())
        &&& exists|made: wasmtime::Store<HostState>| #[trigger]
            freshly_made(block, state, self.instance(), made) && same_memories(made, self.store())
    }
}

/// What is left of a call that was made: its store, as the guest left it. The
/// instance cannot be called again.
pub struct SpentCall {
    store: wasmtime::Store<HostState>,
}

impl SpentCall {
    #[verifier::type_invariant]
    spec fn store_was_used(self) -> bool {
        !store_is_new(self.store)
    }

    /// The store.
    pub closed spec fn store(self) -> wasmtime::Store<HostState> {
        self.store
    }
}

/// No call runs in a store that another call has used: the store in which its
/// instance was made was new and held the state of this call, and a store that
/// was used is never new again.
pub proof fn no_call_runs_in_a_used_store(
    block: WASMBlock,
    state: HostState,
    name: Seq<char>,
    call: GuestCall,
    used: wasmtime::Store<HostState>,
)
    requires
        call.is_of(block, state, name),
        !store_is_new(used),
    ensures
        exists|begin: wasmtime::Store<HostState>, made: wasmtime::Store<HostState>|
            begin != used && !same_store(used, begin) && store_made_with(begin) == state
                && #[trigger] instantiate_may_give(
                block.linker(),
                begin,
                block.module(),
                call.instance(),
                made,
            ) && same_memories(made, call.store()),
{
    let made = choose|made: wasmtime::Store<HostState>| #[trigger]
        freshly_made(block, state, call.instance(), made) && same_memories(made, call.store());
    let begin = choose|begin: wasmtime::Store<HostState>|
        store_is_new(begin) && store_made_with(begin) == state && #[trigger] instantiate_may_give(
            block.linker(),
            begin,
            block.module(),
            call.instance(),
            made,
        );
    assert(instantiate_may_give(
        block.linker(),
        begin,
        block.module(),
        call.instance(),
        made,
    ));
}

/// The memory of a call, under a name.
pub open spec fn call_memory(call: GuestCall, name: Seq<char>) -> Seq<u8> {
    memory_bytes(call.store(), exported_memory(call.instance(), name)->0)
}

/// A call begins with the memory that the module of its block gives it.
proof fn call_begins_as_written(
    block: WASMBlock,
    state: HostState,
    function: Seq<char>,
    call: GuestCall,
    name: Seq<char>,
)
    requires
        call.is_of(block, state, function),
        !runs_at_start(block.module()),
        exported_memory(call.instance(), name) is Some,
    ensures
        call_memory(call, name) == initial_bytes(block.module(), name),
{
    let made = choose|made: wasmtime::Store<HostState>| #[trigger]
        freshly_made(block, state, call.instance(), made) && same_memories(made, call.store());
    assert(memory_bytes(made, exported_memory(call.instance(), name)->0) == initial_bytes(
        block.module(),
        name,
    ));
}

/// Any two calls of one block begin with the same memory, which is the one that
/// its module gives them, whatever ran before, whichever function is called and
/// whatever context each is given. A module with a start function may write to
/// its memory first.
pub proof fn calls_begin_alike(
    block: WASMBlock,
    states: (HostState, HostState),
    functions: (Seq<char>, Seq<char>),
    calls: (GuestCall, GuestCall),
    name: Seq<char>,
)
    requires
        calls.0.is_of(block, states.0, functions.0),
        calls.1.is_of(block, states.1, functions.1),
        !runs_at_start(block.module()),
        exported_memory(calls.0.instance(), name) is Some,
        exported_memory(calls.1.instance(), name) is Some,
    ensures
        call_memory(calls.0, name) == call_memory(calls.1, name),
        call_memory(calls.0, name) == initial_bytes(block.module(), name),
{
    call_begins_as_written(block, states.0, functions.0, calls.0, name);
    call_begins_as_written(block, states.1, functions.1, calls.1, name);
}

/// Why a call of a guest failed.
pub enum CallFailure {
    /// The bytes could not be handed over.
    Write(String),
    /// The guest failed.
    Call(String),
}

/// What a failed call holds.
pub enum CallFailureView {
    Write(Seq<char>),
    Call(Seq<char>),
}

/// A packed place or why there is none.
pub open spec fn call_view(r: Result<i64, CallFailure>) -> Result<i64, CallFailureView> {
    match r {
        Ok(pair) => Ok(pair),
        Err(CallFailure::Write(text)) => Err(CallFailureView::Write(text@)),
        Err(CallFailure::Call(text)) => Err(CallFailureView::Call(text@)),
    }
}

/// What calling a function with a place leads to, and how it leaves the store.
pub open spec fn place_called(
    func: wasmtime::TypedFunc<(i32, i32), i64>,
    state: wasmtime::Store<HostState>,
    place: (u32, u32),
    r: Result<i64, CallFailureView>,
    left: wasmtime::Store<HostState>,
) -> bool {
    exists|outcome: Result<i64, wasmtime::Error>| #[trigger]
        handler_may_return(func, state, (place.0 as i32, place.1 as i32), outcome, left) && r
            == match outcome {
            Ok(pair) => Ok::<i64, CallFailureView>(pair),
            Err(e) => Err::<i64, CallFailureView>(CallFailureView::Call(guest_error_text(e))),
        }
}

/// What a place, or the complaint that there is none, leads to.
pub open spec fn place_led_to(
    func: wasmtime::TypedFunc<(i32, i32), i64>,
    state: wasmtime::Store<HostState>,
    place: Result<(u32, u32), Seq<char>>,
    r: Result<i64, CallFailureView>,
    left: wasmtime::Store<HostState>,
) -> bool {
    match place {
        Ok(place) => place_called(func, state, place, r, left),
        Err(text) => left == state && r == Err::<i64, CallFailureView>(
            CallFailureView::Write(text),
        ),
    }
}

/// What calling a guest with some bytes leads to, and how it leaves the store:
/// the bytes are handed over, and the function is called with their place.
pub open spec fn exchanged(
    call: GuestCall,
    data: Seq<u8>,
    r: Result<i64, CallFailureView>,
    left: wasmtime::Store<HostState>,
) -> bool {
    exists|state: wasmtime::Store<HostState>, place: Result<(u32, u32), Seq<char>>| #[trigger]
        handed(call.store(), state, call.instance(), data, place) && same_store(
            call.store(),
            state,
        ) && place_led_to(call.func(), state, place, r, left)
}

/// Calls a guest with some bytes.
fn exchange(call: GuestCall, data: &[u8]) -> (r: (
    Result<i64, CallFailure>,
    wasmtime::Store<HostState>,
    wasmtime::Instance,
))
    ensures
        r.2 == call.instance(),
        instance_store(r.2) == store_id(r.1),
        !store_is_new(r.1),
        exchanged(call, data@, call_view(r.0), r.1),
{
    proof {
        use_type_invariant(&call);
    }
    let GuestCall { mut store, instance, func } = call;
    let place = write_to_memory(&mut store, &instance, data);
    let ghost state = store;
    assert(handed(call.store(), state, instance, data@, place_view(place)));
    match place {
        Ok((ptr, len)) => {
            let outcome = call_handler(&func, &mut store, ptr as i32, len as i32);
            assert(handler_may_return(
                func,
                state,
                (ptr as i32, len as i32),
                outcome,
                store,
            ));
            let r = match outcome {
                Ok(pair) => Ok(pair),
                Err(e) => Err(CallFailure::Call(error_text(&e))),
            };
            assert(place_called(func, state, (ptr, len), call_view(r), store));
            assert(place_led_to(func, state, place_view(place), call_view(r), store));
            (r, store, instance)
        },
        Err(text) => {
            assert(place_led_to(
                func,
                state,
                place_view(place),
                Err(CallFailureView::Write(text@)),
                store,
            ));
            (Err(CallFailure::Write(text)), store, instance)
        },
    }
}

/// Whether a new instance of the block may lack the function, with this
/// complaint.
pub open spec fn function_missing(
    block: WASMBlock,
    state: HostState,
    name: Seq<char>,
    text: Seq<char>,
) -> bool {
    exists|instance: wasmtime::Instance, made: wasmtime::Store<HostState>| #[trigger]
        freshly_made(block, state, instance, made) && exported_handler(instance, name) is None
            && text == lookup_text(instance, name)
}

/// The error that hands a message back.
pub open spec fn handed_back(msg: MessageView, code: Seq<char>, text: Seq<char>) -> ResultView {
    ResultView::failed_with(msg, ErrorView::plain(code, text))
}

/// Whether a block could not be made ready to handle a message, with this
/// result.
pub open spec fn handle_prevented(
    block: WASMBlock,
    state: HostState,
    msg: MessageView,
    r: ResultView,
) -> bool {
    ||| exists|text: Seq<char>| #[trigger]
        instance_complaint(block, state, text) && r == handed_back(msg, "wasm_error"@, text)
    ||| exists|text: Seq<char>| #[trigger]
        function_missing(block, state, "handle"@, text) && r == handed_back(
            msg,
            "wasm_error"@,
            "handle export not found: "@ + text,
        )
}

/// What a block that was called with a message leads to, once the call is over
/// and has left the store so.
pub open spec fn handle_answered(
    left: wasmtime::Store<HostState>,
    instance: wasmtime::Instance,
    outcome: Result<i64, CallFailureView>,
    msg: MessageView,
    r: Result<Seq<u8>, ResultView>,
) -> bool {
    match outcome {
        Ok(pair) => exists|answer: Result<Seq<u8>, Seq<char>>| #[trigger]
            answer_taken(left, instance, pair, answer) && r == match answer {
                Ok(bytes) => Ok::<Seq<u8>, ResultView>(bytes),
                Err(text) => Err::<Seq<u8>, ResultView>(
                    handed_back(msg, "wasm_decode_error"@, text),
                ),
            },
        Err(CallFailureView::Write(text)) => r == Err::<Seq<u8>, ResultView>(
            handed_back(msg, "wasm_memory_error"@, text),
        ),
        Err(CallFailureView::Call(text)) => r == Err::<Seq<u8>, ResultView>(
            handed_back(msg, "wasm_call_error"@, "calling handle: "@ + text),
        ),
    }
}

/// What calling a block with an encoded message leads to: the bytes of its
/// result, or the result that reports why there are none. The block runs once,
/// and the memories are left as it left them; it does not run at all where the
/// message could not be encoded.
pub open spec fn handle_led_to(
    call: GuestCall,
    encoded: Result<Seq<u8>, Seq<char>>,
    msg: MessageView,
    r: Result<Seq<u8>, ResultView>,
    after: wasmtime::Store<HostState>,
) -> bool {
    match encoded {
        Ok(data) => exists|
            outcome: Result<i64, CallFailureView>,
            left: wasmtime::Store<HostState>,
        | #[trigger]
            exchanged(call, data, outcome, left) && handle_answered(
                left,
                call.instance(),
                outcome,
                msg,
                r,
            ) && same_memories(left, after),
        Err(text) => after == call.store() && r == Err::<Seq<u8>, ResultView>(
            handed_back(msg, "wasm_memory_error"@, text),
        ),
    }
}

/// Bytes, or a result in their place.
pub open spec fn handle_view(r: Result<Vec<u8>, Result_>) -> Result<Seq<u8>, ResultView> {
    match r {
        Ok(bytes) => Ok(bytes@),
        Err(result) => Err(result@),
    }
}

/// The error that hands a message back.
fn hand_back(msg: &Message, code: &str, text: String) -> (r: Result_)
    ensures
        r@ == handed_back(msg@, code@, text@),
{
    msg.clone().err(WaferError::new(code, text))
}

impl WASMBlock {
    /// Makes the block ready to handle a message.
    pub fn handle_start(&self, state: HostState, msg: &Message) -> (r: Result<GuestCall, Result_>)
        ensures
            match r {
                Ok(call) => call.is_of(*self, state, "handle"@),
                Err(result) => handle_prevented(*self, state, msg@, result@),
            },
    {
        let (mut store, instance) = match self.create_instance(state) {
            Ok(made) => made,
            Err(text) => {
                assert(instance_complaint(*self, state, text@));
                return Err(hand_back(msg, "wasm_error", text));
            },
        };
        let ghost made = store;
        match find_handler(&instance, &mut store, "handle") {
            Ok(func) => {
                assert(freshly_made(*self, state, instance, made));
                Ok(GuestCall { store, instance, func })
            },
            Err(e) => {
                let text = error_text(&e);
                assert(freshly_made(*self, state, instance, made));
                assert(function_missing(*self, state, "handle"@, text@));
                Err(hand_back(msg, "wasm_error", join("handle export not found: ", text.as_str())))
            },
        }
    }

    /// Hands the encoded message to the block and takes the bytes of its result.
    pub fn handle_run(call: GuestCall, encoded: Result<Vec<u8>, String>, msg: &Message) -> (r: (
        Result<Vec<u8>, Result_>,
        SpentCall,
    ))
        ensures
            handle_led_to(call, bytes_view(encoded), msg@, handle_view(r.0), r.1.store()),
            !store_is_new(r.1.store()),
    {
        proof {
            use_type_invariant(&call);
        }
        let data = match encoded {
            Ok(data) => data,
            Err(text) => {
                let spent = SpentCall { store: call.store };
                return (Err(hand_back(msg, "wasm_memory_error", text)), spent);
            },
        };
        let (outcome, mut store, instance) = exchange(call, data.as_slice());
        let ghost came_back = call_view(outcome);
        let ghost left = store;
        assert(exchanged(call, bytes_view(encoded)->Ok_0, came_back, left));
        let r = match outcome {
            Ok(pair) => {
                let answer = take_answer(&mut store, &instance, pair);
                assert(answer_taken(left, instance, came_back->Ok_0, bytes_view(answer)));
                match answer {
                    Ok(bytes) => Ok(bytes),
                    Err(text) => Err(hand_back(msg, "wasm_decode_error", text)),
                }
            },
            Err(CallFailure::Write(text)) => Err(hand_back(msg, "wasm_memory_error", text)),
            Err(CallFailure::Call(text)) => Err(
                hand_back(msg, "wasm_call_error", join("calling handle: ", text.as_str())),
            ),
        };
        assert(handle_answered(left, instance, came_back, msg@, handle_view(r)));
        (r, SpentCall { store })
    }

    /// The result of the block once its bytes were read: it hands the message
    /// back.
    pub fn handle_finish(read: Result<WasmResult, String>, msg: &Message) -> (r: Result_)
        ensures
            r@ == match read {
                Ok(wr) => ResultView { message: Some(msg@), ..wr.meaning() },
                Err(text) => handed_back(
                    msg@,
                    "wasm_decode_error"@,
                    "reading result: "@ + text@,
                ),
            },
    {
        match read {
            Ok(wr) => {
                let mut result = result_from_wasm(wr);
                result.message = Some(msg.clone());
                result
            },
            Err(text) => hand_back(
                msg,
                "wasm_decode_error",
                join("reading result: ", text.as_str()),
            ),
        }
    }
}

/// What a block that was told of an event leads to, once the call is over and
/// has left the store so. A block that answers with no bytes has nothing to say.
pub open spec fn lifecycle_answered(
    left: wasmtime::Store<HostState>,
    instance: wasmtime::Instance,
    outcome: Result<i64, CallFailureView>,
    r: Result<Option<Seq<u8>>, ErrorView>,
) -> bool {
    match outcome {
        Ok(pair) => exists|ptr: i32, len: i32| #[trigger]
            packed(ptr, len) == pair && if len > 0 {
                exists|answer: Result<Seq<u8>, Seq<char>>| #[trigger]
                    answer_taken(left, instance, pair, answer) && r == match answer {
                        Ok(bytes) => Ok::<Option<Seq<u8>>, ErrorView>(Some(bytes)),
                        Err(text) => Err::<Option<Seq<u8>>, ErrorView>(
                            ErrorView::plain("wasm_error"@, text),
                        ),
                    }
            } else {
                r == Ok::<Option<Seq<u8>>, ErrorView>(None)
            },
        Err(CallFailureView::Write(text)) => r == Err::<Option<Seq<u8>>, ErrorView>(
            ErrorView::plain("wasm_error"@, text),
        ),
        Err(CallFailureView::Call(text)) => r == Err::<Option<Seq<u8>>, ErrorView>(
            ErrorView::plain("wasm_error"@, "calling lifecycle: "@ + text),
        ),
    }
}

/// What telling a block of an encoded event leads to: the bytes that it answers
/// with, if there are any, or why it could not be told. The block runs once, and
/// the memories are left as it left them; it does not run at all where the event
/// could not be encoded.
pub open spec fn lifecycle_led_to(
    call: GuestCall,
    encoded: Result<Seq<u8>, Seq<char>>,
    r: Result<Option<Seq<u8>>, ErrorView>,
    after: wasmtime::Store<HostState>,
) -> bool {
    match encoded {
        Ok(data) => exists|
            outcome: Result<i64, CallFailureView>,
            left: wasmtime::Store<HostState>,
        | #[trigger]
            exchanged(call, data, outcome, left) && lifecycle_answered(
                left,
                call.instance(),
                outcome,
                r,
            ) && same_memories(left, after),
        Err(text) => after == call.store() && r == Err::<Option<Seq<u8>>, ErrorView>(
            ErrorView::plain("wasm_error"@, "marshaling lifecycle event: "@ + text),
        ),
    }
}

/// Bytes or none, or an error in their place.
pub open spec fn lifecycle_view(r: Result<Option<Vec<u8>>, WaferError>) -> Result<
    Option<Seq<u8>>,
    ErrorView,
> {
    match r {
        Ok(Some(bytes)) => Ok(Some(bytes@)),
        Ok(None) => Ok(None),
        Err(error) => Err(error@),
    }
}

impl WASMBlock {
    /// Makes the block ready to be told of an event. A block need not have a
    /// function for it: there is no call then.
    pub fn lifecycle_start(&self, state: HostState) -> (r: Result<Option<GuestCall>, WaferError>)
        ensures
            match r {
                Ok(Some(call)) => call.is_of(*self, state, "lifecycle"@),
                Ok(None) => exists|text: Seq<char>| #[trigger]
                    function_missing(*self, state, "lifecycle"@, text),
                Err(error) => error@.code == "wasm_error"@ && error@.meta == Map::<
                    Seq<char>,
                    Seq<char>,
                >::empty() && instance_complaint(*self, state, error@.message),
            },
    {
        let (mut store, instance) = match self.create_instance(state) {
            Ok(made) => made,
            Err(text) => return Err(WaferError::new("wasm_error", text)),
        };
        let ghost made = store;
        match find_handler(&instance, &mut store, "lifecycle") {
            Ok(func) => {
                assert(freshly_made(*self, state, instance, made));
                Ok(Some(GuestCall { store, instance, func }))
            },
            Err(e) => {
                assert(freshly_made(*self, state, instance, made));
                assert(function_missing(*self, state, "lifecycle"@, guest_error_text(e)));
                Ok(None)
            },
        }
    }

    /// Tells the block of the encoded event and takes the bytes that it answers
    /// with.
    pub fn lifecycle_run(call: GuestCall, encoded: Result<Vec<u8>, String>) -> (r: (
        Result<Option<Vec<u8>>, WaferError>,
        SpentCall,
    ))
        ensures
            lifecycle_led_to(call, bytes_view(encoded), lifecycle_view(r.0), r.1.store()),
            !store_is_new(r.1.store()),
    {
        proof {
            use_type_invariant(&call);
        }
        let data = match encoded {
            Ok(data) => data,
            Err(text) => {
                let spent = SpentCall { store: call.store };
                let text = join("marshaling lifecycle event: ", text.as_str());
                return (Err(WaferError::new("wasm_error", text)), spent);
            },
        };
        let (outcome, mut store, instance) = exchange(call, data.as_slice());
        let ghost came_back = call_view(outcome);
        let ghost left = store;
        assert(exchanged(call, bytes_view(encoded)->Ok_0, came_back, left));
        let r = match outcome {
            Ok(pair) => {
                let (ptr, len) = unpack_i64(pair);
                assert(packed(ptr, len) == came_back->Ok_0);
                if len > 0 {
                    let answer = take_answer(&mut store, &instance, pair);
                    assert(answer_taken(left, instance, came_back->Ok_0, bytes_view(answer)));
                    match answer {
                        Ok(bytes) => Ok(Some(bytes)),
                        Err(text) => Err(WaferError::new("wasm_error", text)),
                    }
                } else {
                    Ok(None)
                }
            },
            Err(CallFailure::Write(text)) => Err(WaferError::new("wasm_error", text)),
            Err(CallFailure::Call(text)) => Err(
                WaferError::new("wasm_error", join("calling lifecycle: ", text.as_str())),
            ),
        };
        assert(lifecycle_answered(left, instance, came_back, lifecycle_view(r)));
        (r, SpentCall { store })
    }

    /// Whether the block took the event well, once its answer was read. Only an
    /// answer that holds an error is a complaint; one that cannot be read is
    /// none.
    pub fn lifecycle_finish(read: Result<LcResult, String>) -> (r: Result<(), WaferError>)
        ensures
            match read {
                Ok(lc) if lc.error@.len() > 0 => r matches Err(error) && error@
                    == ErrorView::plain("lifecycle_error"@, lc.error@),
                _ => r is Ok,
            },
    {
        match read {
            Ok(lc) => {
                proof {
                    reveal_strlit("");
                }
                assert(lc.error@.len() == 0 ==> lc.error@ =~= ""@);
                if text_eq(lc.error.as_str(), "") {
                    Ok(())
                } else {
                    Err(WaferError::new("lifecycle_error", lc.error))
                }
            },
            Err(_) => Ok(()),
        }
    }
}

} // verus!
