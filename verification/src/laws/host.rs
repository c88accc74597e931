//! What the host functions do for a guest.
use vstd::prelude::*;

use crate::decimal::{numeral, signed_numeral};
use crate::laws::boundary::results_are_written_field_by_field;
use crate::types::{Action, ResultView};
use crate::wasm::format::{result_is_read_back, WasmMessage, WasmResult};
use crate::wasm::guest::{overwritten, HostState};
use crate::wasm::host::{
    answered, asked, caller_bytes, caller_export, caller_func, caller_memory, caller_state,
    context_answers, extern_func, extern_memory, func_may_return, handed_back, is_error_result,
    put_back, same_memories, sent_bytes, Refusal, RefusalView,
};
use crate::wasm::packed::packed;

verus! {

/// A message that was read is sent to the context as it is, and what the guest is
/// handed reads back as the result that the context answered with, less the
/// message that it hands back.
pub proof fn guests_read_what_the_context_answered(
    state: HostState,
    msg: WasmMessage,
    r: Result<WasmResult, Refusal>,
)
    requires
        state.context is Some,
        answered(state, Ok(msg), r),
    ensures
        r is Ok,
        exists|result: ResultView| #[trigger]
            state.context->0.may_answer(msg.meaning(), result) && r->Ok_0.meaning() == (
            ResultView { message: None, ..result }),
{
    let wr = r->Ok_0;
    assert(context_answers(state, msg.meaning(), wr));
    let result = choose|result: ResultView| #[trigger]
        state.context->0.may_answer(msg.meaning(), result) && wr.writes(result);
    result_is_read_back(result, wr);
    assert(state.context->0.may_answer(msg.meaning(), result));
}

/// A guest is handed an error exactly if the context answered with one, with the
/// same code and text, and a response exactly if it answered with one, with the
/// same bytes.
pub proof fn errors_and_responses_reach_the_guest(
    state: HostState,
    msg: WasmMessage,
    r: Result<WasmResult, Refusal>,
)
    requires
        state.context is Some,
        answered(state, Ok(msg), r),
    ensures
        r is Ok,
        exists|result: ResultView| #[trigger]
            state.context->0.may_answer(msg.meaning(), result) && {
                &&& r->Ok_0.error is Some <==> result.error is Some
                &&& result.error is Some ==> r->Ok_0.error->0.code@ == result.error->0.code
                    && r->Ok_0.error->0.message@ == result.error->0.message
                &&& r->Ok_0.response is Some <==> result.response is Some
                &&& result.response is Some ==> r->Ok_0.response->0.data@
                    == result.response->0.data
            },
{
    let wr = r->Ok_0;
    assert(context_answers(state, msg.meaning(), wr));
    let result = choose|result: ResultView| #[trigger]
        state.context->0.may_answer(msg.meaning(), result) && wr.writes(result);
    results_are_written_field_by_field(result, wr);
    assert(state.context->0.may_answer(msg.meaning(), result));
}

/// A message that could not be read is refused with the reason, and one without a
/// context is refused too.
pub proof fn messages_that_cannot_be_sent_are_refused(
    state: HostState,
    msg: Result<WasmMessage, String>,
    r: Result<WasmResult, Refusal>,
)
    requires
        answered(state, msg, r),
    ensures
        msg is Err ==> r is Err && r->Err_0.code@ == "decode_error"@ && r->Err_0.message@
            == msg->Err_0@,
        msg is Ok && state.context is None ==> r is Err && r->Err_0.code@ == "internal"@
            && r->Err_0.message@ == "no wafer context"@,
{
}

/// The bytes of a message are those at its place in the memory, all of them. They
/// are refused where there is no context, no memory, where they are too many, or
/// where they do not lie in the memory, in this order.
pub proof fn messages_are_taken_from_their_place(
    caller: wasmtime::Caller<'_, HostState>,
    ptr: i32,
    len: i32,
)
    ensures
        sent_bytes(caller, ptr, len) matches Ok(bytes) ==> caller_state(caller).context is Some
            && caller_memory(caller, "memory"@) is Some && 0 <= len <= 16 * 1024 * 1024
            && bytes.len() == len && (forall|i: int|
            0 <= i < len ==> #[trigger] bytes[i] == caller_bytes(
                caller,
                caller_memory(caller, "memory"@)->0,
            )[ptr as usize + i]),
        caller_state(caller).context is Some && caller_memory(caller, "memory"@) is Some && 0
            <= len <= 16 * 1024 * 1024 && ptr as usize + len <= caller_bytes(
            caller,
            caller_memory(caller, "memory"@)->0,
        ).len() ==> sent_bytes(caller, ptr, len) is Ok,
        caller_state(caller).context is None ==> sent_bytes(caller, ptr, len) == Err::<
            Seq<u8>,
            RefusalView,
        >(RefusalView { code: "internal"@, message: "no wafer context"@ }),
        caller_state(caller).context is Some && caller_memory(caller, "memory"@) is None
            ==> sent_bytes(caller, ptr, len) == Err::<Seq<u8>, RefusalView>(
            RefusalView { code: "memory_error"@, message: "memory not found"@ },
        ),
        caller_state(caller).context is Some && caller_memory(caller, "memory"@) is Some && (len
            < 0 || len > 16 * 1024 * 1024) ==> sent_bytes(caller, ptr, len) == Err::<
            Seq<u8>,
            RefusalView,
        >(
            RefusalView {
                code: "msg_too_large"@,
                message: "message size "@ + signed_numeral(len as int) + " exceeds maximum "@
                    + numeral(16777216),
            },
        ),
        caller_state(caller).context is Some && caller_memory(caller, "memory"@) is Some && 0
            <= len <= 16 * 1024 * 1024 && ptr as usize + len > caller_bytes(
            caller,
            caller_memory(caller, "memory"@)->0,
        ).len() ==> sent_bytes(caller, ptr, len) == Err::<Seq<u8>, RefusalView>(
            RefusalView { code: "memory_error"@, message: "read failed"@ },
        ),
{
}

/// What a caller exports under a name is a memory or a function where it is one.
pub proof fn exports_are_looked_up_by_name(
    caller: wasmtime::Caller<'_, HostState>,
    name: Seq<char>,
)
    ensures
        caller_export(caller, name) is None ==> caller_memory(caller, name) is None && caller_func(
            caller,
            name,
        ) is None,
        caller_export(caller, name) is Some ==> caller_memory(caller, name) == extern_memory(
            caller_export(caller, name)->0,
        ) && caller_func(caller, name) == extern_func(caller_export(caller, name)->0),
{
}

/// What a guest reads of a refusal is an error with the code and the text of the
/// refusal, and nothing else.
pub proof fn refusals_reach_the_guest(refusal: RefusalView, wr: WasmResult)
    requires
        is_error_result(refusal, wr),
    ensures
        wr.action@ == "error"@,
        wr.response is None,
        wr.error is Some,
        wr.error->0.code@ == refusal.code,
        wr.error->0.message@ == refusal.message,
        wr.error->0.meta@.len() == 0,
        wr.meaning().action == Action::Error,
        wr.meaning().error->0.code == refusal.code,
        wr.meaning().error->0.message == refusal.message,
{
    crate::laws::boundary::actions_have_names();
}

/// Bytes are handed back by asking the guest for room for all of them: where it
/// gives a place and they fit there, they stand at it, the rest of the memory is
/// as the guest left it, and the guest is told the place and their number. In
/// any other case it is told zero.
pub proof fn answers_are_put_where_the_guest_says(
    before: wasmtime::Caller<'_, HostState>,
    after: wasmtime::Caller<'_, HostState>,
    data: Seq<u8>,
    r: i64,
)
    requires
        handed_back(before, after, data, r),
    ensures
        caller_func(before, "malloc"@) is None ==> r == 0,
        caller_func(before, "malloc"@) is Some ==> exists|
            state: wasmtime::Caller<'_, HostState>,
            outcome: Result<Option<i32>, wasmtime::Error>,
            left: wasmtime::Caller<'_, HostState>,
        |
            {
                &&& #[trigger] func_may_return(
                    caller_func(before, "malloc"@)->0,
                    state,
                    data.len() as i32,
                    outcome,
                    left,
                )
                &&& same_memories(before, state)
                &&& outcome is Err || outcome->Ok_0 is None || caller_memory(
                    before,
                    "memory"@,
                ) is None ==> r == 0
                &&& outcome is Ok && outcome->Ok_0 is Some && caller_memory(before, "memory"@)
                    is Some ==> was_put(
                    caller_bytes(left, caller_memory(before, "memory"@)->0),
                    caller_bytes(after, caller_memory(before, "memory"@)->0),
                    outcome->Ok_0->0,
                    data,
                    r,
                )
            },
{
    if caller_func(before, "malloc"@) is Some {
        let malloc = caller_func(before, "malloc"@)->0;
        let (outcome, left) = choose|
            outcome: Result<Option<i32>, wasmtime::Error>,
            left: wasmtime::Caller<'_, HostState>,
        | #[trigger]
            asked(before, malloc, data.len(), outcome, left) && put_back(
                left,
                after,
                caller_memory(before, "memory"@),
                data,
                outcome,
                r,
            );
        let state = choose|state: wasmtime::Caller<'_, HostState>|
            same_memories(before, state) && #[trigger] func_may_return(
                malloc,
                state,
                data.len() as i32,
                outcome,
                left,
            );
        assert(func_may_return(malloc, state, data.len() as i32, outcome, left));
    }
}

/// Whether bytes were put at a place in a memory, if they fit there, and nothing
/// else changed; the number tells the place and how many they are, or is zero.
pub open spec fn was_put(
    before: Seq<u8>,
    after: Seq<u8>,
    ptr: i32,
    data: Seq<u8>,
    r: i64,
) -> bool {
    let offset = ptr as usize as int;
    &&& after.len() == before.len()
    &&& if offset + data.len() <= before.len() {
        &&& r == packed(ptr, data.len() as i32)
        &&& forall|i: int|
            0 <= i < before.len() ==> #[trigger] after[i] == if offset <= i < offset + data.len() {
                data[i - offset]
            } else {
                before[i]
            }
    } else {
        r == 0 && after == before
    }
}

/// Bytes that are written over others stand from the offset on, and the others
/// stay around them.
pub proof fn written_bytes_stand_at_their_offset(bytes: Seq<u8>, offset: int, data: Seq<u8>, i: int)
    requires
        0 <= offset,
        offset + data.len() <= bytes.len(),
        0 <= i < bytes.len(),
    ensures
        overwritten(bytes, offset, data).len() == bytes.len(),
        overwritten(bytes, offset, data)[i] == if offset <= i < offset + data.len() {
            data[i - offset]
        } else {
            bytes[i]
        },
{
}

} // verus!
