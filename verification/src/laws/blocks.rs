//! Loading blocks, asking them for their self-description and calling them.
use vstd::prelude::*;

use crate::block::BlockInfoView;
use crate::types::{Action, ErrorView, MessageView, ResultView};
use crate::wasm::format::WasmBlockInfo;
use crate::wasm::guest::{
    compile_may_fail, exported_handler, exported_producer, guest_error_text, handler_may_return,
    instance_module, instantiate_may_fail, lookup_text, module_engine, module_exports, module_source,
    producer_may_return, same_memories, store_is_new, store_made_with, HostState,
};
use crate::wasm::info::{info_begun, info_meaning, kept_after, InfoStepView};
use crate::wasm::invoke::{
    exchanged, handed_back, handle_answered, handle_led_to, handle_prevented, lifecycle_answered,
    lifecycle_led_to, place_called, place_led_to, CallFailureView, GuestCall,
};
use crate::wasm::loader::{
    answer_taken, freshly_made, info_answered, info_asked, info_called, info_failed, info_of_new,
    instance_complaint, load_complaint, missing_export, WASMBlock,
};
use crate::wasm::memory::{handed, taken};
use crate::wasm::packed::packed;

verus! {

/// A module has what a block must have exactly if it exports `info`, `handle`,
/// `lifecycle` and `malloc`, and of several that are missing the first in this
/// order is named.
pub proof fn blocks_must_have_four_exports(names: Seq<Seq<char>>)
    ensures
        missing_export(names) is None <==> names.contains("info"@) && names.contains("handle"@)
            && names.contains("lifecycle"@) && names.contains("malloc"@),
        !names.contains("info"@) ==> missing_export(names) == Some("info"@),
        names.contains("info"@) && !names.contains("handle"@) ==> missing_export(names) == Some(
            "handle"@,
        ),
        names.contains("info"@) && names.contains("handle"@) && !names.contains("lifecycle"@)
            ==> missing_export(names) == Some("lifecycle"@),
        names.contains("info"@) && names.contains("handle"@) && names.contains("lifecycle"@)
            && !names.contains("malloc"@) ==> missing_export(names) == Some("malloc"@),
{
}

/// A block that could not be loaded was refused by the compiler, or its module
/// lacks an export; the complaint says which.
pub proof fn refused_blocks_are_told_why(
    engine: wasmtime::Engine,
    wasm_bytes: Seq<u8>,
    text: Seq<char>,
)
    requires
        load_complaint(engine, wasm_bytes, text),
    ensures
        (exists|e: wasmtime::Error| #[trigger]
            compile_may_fail(engine, wasm_bytes, e) && text == "compiling WASM module: "@
                + guest_error_text(e)) || (exists|module: wasmtime::Module|
            #[trigger] module_source(module) == wasm_bytes && module_engine(module) == engine
                && missing_export(module_exports(module)) is Some && text
                == "WASM module missing required export: "@ + missing_export(
                module_exports(module),
            )->0),
{
}

/// A block that could not be made ready was refused an instance in a new store
/// that held its state; the complaint says why.
pub proof fn blocks_without_an_instance_are_told_why(
    block: WASMBlock,
    state: HostState,
    text: Seq<char>,
)
    requires
        instance_complaint(block, state, text),
    ensures
        exists|store: wasmtime::Store<HostState>, e: wasmtime::Error|
            store_is_new(store) && store_made_with(store) == state
                && #[trigger] instantiate_may_fail(block.linker(), store, block.module(), e)
                && text == "instantiating WASM module: "@ + guest_error_text(e),
{
}

/// A self-description is the bytes at the place that the block's `info` gives,
/// in the memory as it left it.
pub proof fn descriptions_are_where_the_block_says(
    before: wasmtime::Store<HostState>,
    instance: wasmtime::Instance,
    r: Result<Seq<u8>, Seq<char>>,
    after: wasmtime::Store<HostState>,
)
    requires
        info_asked(before, instance, r, after),
    ensures
        exported_producer(instance, "info"@) is None ==> r == Err::<Seq<u8>, Seq<char>>(
            "info export not found: "@ + lookup_text(instance, "info"@),
        ),
        exported_producer(instance, "info"@) is Some ==> exists|
            state: wasmtime::Store<HostState>,
            outcome: Result<i64, wasmtime::Error>,
            left: wasmtime::Store<HostState>,
        |
            {
                &&& #[trigger] producer_may_return(
                    exported_producer(instance, "info"@)->0,
                    state,
                    outcome,
                    left,
                )
                &&& same_memories(before, state)
                &&& same_memories(left, after)
                &&& outcome is Err ==> r == Err::<Seq<u8>, Seq<char>>(
                    "calling info failed: "@ + guest_error_text(outcome->Err_0),
                )
                &&& outcome is Ok ==> exists|ptr: i32, len: i32|
                    outcome->Ok_0 == #[trigger] packed(ptr, len) && r == match taken(
                        left,
                        instance,
                        ptr as u32,
                        len as u32,
                    ) {
                        Ok(bytes) => Ok::<Seq<u8>, Seq<char>>(bytes),
                        Err(text) => Err::<Seq<u8>, Seq<char>>(
                            "reading info from memory: "@ + text,
                        ),
                    }
            },
{
    if exported_producer(instance, "info"@) is Some {
        let (outcome, left) = choose|
            outcome: Result<i64, wasmtime::Error>,
            left: wasmtime::Store<HostState>,
        | #[trigger]
            info_called(before, instance, outcome, left) && info_answered(
                left,
                instance,
                outcome,
                r,
            ) && same_memories(left, after);
        let state = choose|state: wasmtime::Store<HostState>|
            same_memories(before, state) && #[trigger] producer_may_return(
                exported_producer(instance, "info"@)->0,
                state,
                outcome,
                left,
            );
        assert(producer_may_return(
            exported_producer(instance, "info"@)->0,
            state,
            outcome,
            left,
        ));
        if outcome is Ok {
            let answer = choose|answer: Result<Seq<u8>, Seq<char>>| #[trigger]
                answer_taken(left, instance, outcome->Ok_0, answer) && r == match answer {
                    Ok(bytes) => Ok::<Seq<u8>, Seq<char>>(bytes),
                    Err(text) => Err::<Seq<u8>, Seq<char>>("reading info from memory: "@ + text),
                };
            let (ptr, len) = choose|ptr: i32, len: i32|
                outcome->Ok_0 == packed(ptr, len) && answer == #[trigger] taken(
                    left,
                    instance,
                    ptr as u32,
                    len as u32,
                );
            assert(outcome->Ok_0 == packed(ptr, len));
        }
    }
}

/// What stands in for a self-description says why there is none: no instance
/// could be made, or a new one was asked in vain.
pub proof fn stand_ins_say_why(block: WASMBlock, info: BlockInfoView)
    requires
        info_failed(block, info),
    ensures
        info.name == "unknown"@,
        info.version == "0.0.0"@,
        info.interface == "error"@,
        (exists|text: Seq<char>| #[trigger]
            instance_complaint(block, HostState { context: None }, text) && info.summary
                == "failed to create instance: "@ + text) || (exists|
            made: wasmtime::Store<HostState>,
            instance: wasmtime::Instance,
            after: wasmtime::Store<HostState>,
        |
            freshly_made(block, HostState { context: None }, instance, made)
                && #[trigger] info_asked(made, instance, Err(info.summary), after)),
{
    if !(exists|text: Seq<char>| #[trigger]
        instance_complaint(block, HostState { context: None }, text) && info.summary
            == "failed to create instance: "@ + text) {
        let text = choose|text: Seq<char>| #[trigger]
            info_of_new(block, Err(text)) && info == BlockInfoView::unknown(text);
        assert(info.summary == text);
        let (made, instance, after) = choose|
            made: wasmtime::Store<HostState>,
            instance: wasmtime::Instance,
            after: wasmtime::Store<HostState>,
        |
            freshly_made(block, HostState { context: None }, instance, made)
                && #[trigger] info_asked(made, instance, Err(text), after);
        assert(info_asked(made, instance, Err(info.summary), after));
    }
}

/// A self-description that was read is what its bytes say, and it is kept; one
/// that could not be read stands in, says why, and leaves what is kept alone.
pub proof fn descriptions_are_kept_when_read(
    kept: Option<BlockInfoView>,
    wbi: WasmBlockInfo,
    text: String,
)
    ensures
        info_meaning(Ok(wbi)) == wbi.meaning(),
        kept_after(kept, Ok(wbi)) == Some(wbi.meaning()),
        info_meaning(Err(text)).name == "unknown"@,
        info_meaning(Err(text)).summary == "parsing info: "@ + text@,
        kept_after(kept, Err(text)) == kept,
        kept is Some ==> info_begun(kept) == InfoStepView::Known(kept->0),
        kept is None ==> info_begun(kept) == InfoStepView::Ask,
{
}

/// Whether a result reports this error, hands the message back and holds nothing
/// else.
pub open spec fn reports(
    result: ResultView,
    msg: MessageView,
    code: Seq<char>,
    text: Seq<char>,
) -> bool {
    result == (ResultView {
        action: Action::Error,
        response: None,
        error: Some(ErrorView { code, message: text, meta: Map::empty() }),
        message: Some(msg),
    })
}

/// An error of a block reports its code and text and hands the message back.
pub proof fn failures_hand_the_message_back(msg: MessageView, code: Seq<char>, text: Seq<char>)
    ensures
        reports(handed_back(msg, code, text), msg, code, text),
{
}

/// A block that cannot be made ready for a message is reported with the reason:
/// there is no instance of it, or the instance has no `handle`.
pub proof fn blocks_that_cannot_handle_are_reported(
    block: WASMBlock,
    state: HostState,
    msg: MessageView,
    r: ResultView,
)
    requires
        handle_prevented(block, state, msg, r),
    ensures
        (exists|text: Seq<char>| #[trigger]
            instance_complaint(block, state, text) && reports(r, msg, "wasm_error"@, text)) || (
        exists|instance: wasmtime::Instance, made: wasmtime::Store<HostState>| #[trigger]
            freshly_made(block, state, instance, made) && exported_handler(instance, "handle"@)
                is None && reports(
                r,
                msg,
                "wasm_error"@,
                "handle export not found: "@ + lookup_text(instance, "handle"@),
            )),
{
    if !(exists|text: Seq<char>| #[trigger]
        instance_complaint(block, state, text) && reports(r, msg, "wasm_error"@, text)) {
        let text = choose|text: Seq<char>| #[trigger]
            crate::wasm::invoke::function_missing(block, state, "handle"@, text) && r
                == handed_back(msg, "wasm_error"@, "handle export not found: "@ + text);
        let (instance, made) = choose|
            instance: wasmtime::Instance,
            made: wasmtime::Store<HostState>,
        | #[trigger]
            freshly_made(block, state, instance, made) && exported_handler(instance, "handle"@)
                is None && text == lookup_text(instance, "handle"@);
        assert(freshly_made(block, state, instance, made));
    }
}

/// A call is of the function that its own instance exports under the name, and
/// the instance lives in a store that was made with the given state.
pub proof fn calls_are_of_the_named_function(
    call: GuestCall,
    block: WASMBlock,
    state: HostState,
    name: Seq<char>,
)
    requires
        call.is_of(block, state, name),
    ensures
        exported_handler(call.instance(), name) == Some(call.func()),
        instance_module(call.instance()) == block.module(),
        store_made_with(call.store()) == state,
{
}

/// How far a call of a guest got: its argument was handed over at a place, the
/// function ran with just that place, and came back with an outcome.
pub open spec fn ran(
    call: GuestCall,
    data: Seq<u8>,
    outcome: Result<i64, wasmtime::Error>,
    left: wasmtime::Store<HostState>,
) -> bool {
    exists|state: wasmtime::Store<HostState>, ptr: u32, len: u32|
        handed(call.store(), state, call.instance(), data, Ok((ptr, len)))
            && #[trigger] handler_may_return(
            call.func(),
            state,
            (ptr as i32, len as i32),
            outcome,
            left,
        )
}

/// Whether a guest was not reached, as its argument could not be handed over.
pub open spec fn not_reached(call: GuestCall, data: Seq<u8>, text: Seq<char>) -> bool {
    exists|state: wasmtime::Store<HostState>| #[trigger]
        handed(call.store(), state, call.instance(), data, Err(text))
}

/// A call of a guest does not reach it, or runs it with the place of its argument.
proof fn calls_run_or_do_not_reach(
    call: GuestCall,
    data: Seq<u8>,
    r: Result<i64, CallFailureView>,
    left: wasmtime::Store<HostState>,
)
    requires
        exchanged(call, data, r, left),
    ensures
        match r {
            Ok(pair) => ran(call, data, Ok(pair), left),
            Err(CallFailureView::Write(text)) => not_reached(call, data, text),
            Err(CallFailureView::Call(text)) => exists|e: wasmtime::Error| #[trigger]
                ran(call, data, Err(e), left) && text == guest_error_text(e),
        },
{
    let (state, place) = choose|
        state: wasmtime::Store<HostState>,
        place: Result<(u32, u32), Seq<char>>,
    | #[trigger]
        handed(call.store(), state, call.instance(), data, place) && crate::wasm::guest::same_store(
            call.store(),
            state,
        ) && place_led_to(call.func(), state, place, r, left);
    match place {
        Ok(at) => {
            assert(place_called(call.func(), state, at, r, left));
            let outcome = choose|outcome: Result<i64, wasmtime::Error>| #[trigger]
                handler_may_return(call.func(), state, (at.0 as i32, at.1 as i32), outcome, left)
                    && r == match outcome {
                    Ok(pair) => Ok::<i64, CallFailureView>(pair),
                    Err(e) => Err::<i64, CallFailureView>(
                        CallFailureView::Call(guest_error_text(e)),
                    ),
                };
            assert(handed(call.store(), state, call.instance(), data, Ok((at.0, at.1))));
            assert(ran(call, data, outcome, left));
        },
        Err(text) => {
            assert(not_reached(call, data, text));
        },
    }
}

/// Whether these are the bytes, or the complaint, at the place that a guest gave
/// for its answer, in the memory as it left it.
pub open spec fn at_the_place(
    call: GuestCall,
    left: wasmtime::Store<HostState>,
    pair: i64,
    r: Result<Seq<u8>, Seq<char>>,
) -> bool {
    exists|ptr: i32, len: i32|
        pair == #[trigger] packed(ptr, len) && r == taken(
            left,
            call.instance(),
            ptr as u32,
            len as u32,
        )
}

/// The answer of a guest is taken from its place.
proof fn answers_are_at_their_place(
    call: GuestCall,
    left: wasmtime::Store<HostState>,
    pair: i64,
    r: Result<Seq<u8>, Seq<char>>,
)
    requires
        answer_taken(left, call.instance(), pair, r),
    ensures
        at_the_place(call, left, pair, r),
{
    let (ptr, len) = choose|ptr: i32, len: i32|
        pair == packed(ptr, len) && r == #[trigger] taken(
            left,
            call.instance(),
            ptr as u32,
            len as u32,
        );
    assert(pair == packed(ptr, len));
}

/// A block that handles a message is run once, with the bytes of the message, and
/// its result is the bytes at the place that it gives. Each failure is reported
/// by the code of the stage that it happened at, with the reason and the message.
pub proof fn blocks_handle_the_bytes_they_are_given(
    call: GuestCall,
    data: Seq<u8>,
    msg: MessageView,
    r: Result<Seq<u8>, ResultView>,
    after: wasmtime::Store<HostState>,
)
    requires
        handle_led_to(call, Ok(data), msg, r, after),
    ensures
        r is Ok ==> exists|pair: i64, left: wasmtime::Store<HostState>| #[trigger]
            ran(call, data, Ok(pair), left) && at_the_place(call, left, pair, Ok(r->Ok_0))
                && same_memories(left, after),
        r is Err ==> {
            ||| exists|text: Seq<char>| #[trigger]
                not_reached(call, data, text) && reports(
                    r->Err_0,
                    msg,
                    "wasm_memory_error"@,
                    text,
                )
            ||| exists|e: wasmtime::Error, left: wasmtime::Store<HostState>| #[trigger]
                ran(call, data, Err(e), left) && reports(
                    r->Err_0,
                    msg,
                    "wasm_call_error"@,
                    "calling handle: "@ + guest_error_text(e),
                )
            ||| exists|pair: i64, left: wasmtime::Store<HostState>, text: Seq<char>|
                #[trigger] ran(call, data, Ok(pair), left) && #[trigger] at_the_place(
                    call,
                    left,
                    pair,
                    Err(text),
                ) && reports(r->Err_0, msg, "wasm_decode_error"@, text)
        },
{
    let (outcome, left) = choose|
        outcome: Result<i64, CallFailureView>,
        left: wasmtime::Store<HostState>,
    | #[trigger]
        exchanged(call, data, outcome, left) && handle_answered(
            left,
            call.instance(),
            outcome,
            msg,
            r,
        ) && same_memories(left, after);
    calls_run_or_do_not_reach(call, data, outcome, left);
    match outcome {
        Ok(pair) => {
            let answer = choose|answer: Result<Seq<u8>, Seq<char>>| #[trigger]
                answer_taken(left, call.instance(), pair, answer) && r == match answer {
                    Ok(bytes) => Ok::<Seq<u8>, ResultView>(bytes),
                    Err(text) => Err::<Seq<u8>, ResultView>(
                        handed_back(msg, "wasm_decode_error"@, text),
                    ),
                };
            answers_are_at_their_place(call, left, pair, answer);
            assert(ran(call, data, Ok(pair), left));
            match answer {
                Ok(bytes) => {},
                Err(text) => {
                    assert(at_the_place(call, left, pair, Err(text)));
                    assert(reports(r->Err_0, msg, "wasm_decode_error"@, text));
                },
            }
        },
        Err(CallFailureView::Write(text)) => {
            assert(not_reached(call, data, text));
            assert(reports(r->Err_0, msg, "wasm_memory_error"@, text));
        },
        Err(CallFailureView::Call(text)) => {
            let e = choose|e: wasmtime::Error| #[trigger]
                ran(call, data, Err(e), left) && text == guest_error_text(e);
            assert(ran(call, data, Err(e), left));
            assert(reports(
                r->Err_0,
                msg,
                "wasm_call_error"@,
                "calling handle: "@ + guest_error_text(e),
            ));
        },
    }
}

/// A message that cannot be encoded is reported, and the block is not run.
pub proof fn messages_that_cannot_be_encoded_are_reported(
    call: GuestCall,
    text: Seq<char>,
    msg: MessageView,
    r: Result<Seq<u8>, ResultView>,
    after: wasmtime::Store<HostState>,
)
    requires
        handle_led_to(call, Err(text), msg, r, after),
    ensures
        r is Err && reports(r->Err_0, msg, "wasm_memory_error"@, text),
        after == call.store(),
{
}

/// A block that is told of an event is run once, with the bytes of the event. It
/// says nothing where its answer has no bytes; otherwise they are taken from the
/// place that it gives. Each failure is told with the reason.
pub proof fn blocks_are_told_the_bytes_of_an_event(
    call: GuestCall,
    data: Seq<u8>,
    r: Result<Option<Seq<u8>>, ErrorView>,
    after: wasmtime::Store<HostState>,
)
    requires
        lifecycle_led_to(call, Ok(data), r, after),
    ensures
        r is Ok && r->Ok_0 is Some ==> exists|pair: i64, left: wasmtime::Store<HostState>|
            #[trigger] ran(call, data, Ok(pair), left) && at_the_place(
                call,
                left,
                pair,
                Ok(r->Ok_0->0),
            ) && same_memories(left, after),
        r is Ok && r->Ok_0 is None ==> exists|
            ptr: i32,
            len: i32,
            pair: i64,
            left: wasmtime::Store<HostState>,
        |
            #[trigger] ran(call, data, Ok(pair), left) && pair == #[trigger] packed(ptr, len)
                && len <= 0,
        r is Err ==> {
            &&& r->Err_0.code == "wasm_error"@
            &&& r->Err_0.meta == Map::<Seq<char>, Seq<char>>::empty()
            &&& {
                ||| not_reached(call, data, r->Err_0.message)
                ||| exists|e: wasmtime::Error, left: wasmtime::Store<HostState>| #[trigger]
                    ran(call, data, Err(e), left) && r->Err_0.message == "calling lifecycle: "@
                        + guest_error_text(e)
                ||| exists|pair: i64, left: wasmtime::Store<HostState>| #[trigger]
                    ran(call, data, Ok(pair), left) && at_the_place(
                        call,
                        left,
                        pair,
                        Err(r->Err_0.message),
                    )
            }
        },
{
    let (outcome, left) = choose|
        outcome: Result<i64, CallFailureView>,
        left: wasmtime::Store<HostState>,
    | #[trigger]
        exchanged(call, data, outcome, left) && lifecycle_answered(
            left,
            call.instance(),
            outcome,
            r,
        ) && same_memories(left, after);
    calls_run_or_do_not_reach(call, data, outcome, left);
    match outcome {
        Ok(pair) => {
            assert(ran(call, data, Ok(pair), left));
            let (ptr, len) = choose|ptr: i32, len: i32| #[trigger]
                packed(ptr, len) == pair && if len > 0 {
                    exists|answer: Result<Seq<u8>, Seq<char>>| #[trigger]
                        answer_taken(left, call.instance(), pair, answer) && r == match answer {
                            Ok(bytes) => Ok::<Option<Seq<u8>>, ErrorView>(Some(bytes)),
                            Err(text) => Err::<Option<Seq<u8>>, ErrorView>(
                                ErrorView::plain("wasm_error"@, text),
                            ),
                        }
                } else {
                    r == Ok::<Option<Seq<u8>>, ErrorView>(None)
                };
            if len > 0 {
                let answer = choose|answer: Result<Seq<u8>, Seq<char>>| #[trigger]
                    answer_taken(left, call.instance(), pair, answer) && r == match answer {
                        Ok(bytes) => Ok::<Option<Seq<u8>>, ErrorView>(Some(bytes)),
                        Err(text) => Err::<Option<Seq<u8>>, ErrorView>(
                            ErrorView::plain("wasm_error"@, text),
                        ),
                    };
                answers_are_at_their_place(call, left, pair, answer);
            } else {
                assert(pair == packed(ptr, len));
            }
        },
        Err(CallFailureView::Write(text)) => {},
        Err(CallFailureView::Call(text)) => {
            let e = choose|e: wasmtime::Error| #[trigger]
                ran(call, data, Err(e), left) && text == guest_error_text(e);
            assert(ran(call, data, Err(e), left));
        },
    }
}

/// An event that cannot be encoded is told with the reason, and the block is not
/// run.
pub proof fn events_that_cannot_be_encoded_are_told(
    call: GuestCall,
    text: Seq<char>,
    r: Result<Option<Seq<u8>>, ErrorView>,
    after: wasmtime::Store<HostState>,
)
    requires
        lifecycle_led_to(call, Err(text), r, after),
    ensures
        r is Err,
        r->Err_0 == (ErrorView {
            code: "wasm_error"@,
            message: "marshaling lifecycle event: "@ + text,
            meta: Map::empty(),
        }),
        after == call.store(),
{
}

} // verus!
