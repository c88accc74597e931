//! The functions that a host offers to its guests.
use vstd::prelude::*;

use crate::context::{CapabilityInfo, Context};
use crate::decimal::{numeral, signed_numeral, signed_text, unsigned_text};
use crate::meta::{pairs_map, wire_pairs, Pair};
use crate::text::join;
use crate::types::{action_name_is_read_back, Action, MessageView, ResultView};
use crate::wasm::format::{
    message_from_wasm, result_to_wasm, WasmError, WasmMessage, WasmResult,
};
use crate::wasm::guest::{memory_store, overwritten, HostState};
use crate::wasm::packed::{pack_i64, packed};

verus! {

/// `wasmtime::Caller`, a guest that calls the host.
#[verifier::external_type_specification]
#[verifier::external_body]
#[verifier::reject_recursive_types(T)]
pub struct ExCaller<'a, T: 'static>(wasmtime::Caller<'a, T>);

/// `wasmtime::Extern`, what an instance exports.
#[verifier::external_type_specification]
#[verifier::external_body]
pub struct ExExtern(wasmtime::Extern);

/// `wasmtime::Func`, a handle to a function of a guest.
#[verifier::external_type_specification]
#[verifier::external_body]
pub struct ExFunc(wasmtime::Func);

/// The store that a caller runs in.
pub uninterp spec fn caller_store(caller: wasmtime::Caller<'_, HostState>) -> int;

/// The host state that a caller's store holds.
pub uninterp spec fn caller_state(caller: wasmtime::Caller<'_, HostState>) -> HostState;

/// The bytes of a memory in a caller's store.
pub uninterp spec fn caller_bytes(
    caller: wasmtime::Caller<'_, HostState>,
    memory: wasmtime::Memory,
) -> Seq<u8>;

/// What a caller exports under a name.
pub uninterp spec fn caller_export(
    caller: wasmtime::Caller<'_, HostState>,
    name: Seq<char>,
) -> Option<wasmtime::Extern>;

/// The store that owns an export.
pub uninterp spec fn extern_store(export: wasmtime::Extern) -> int;

/// The memory that an export is, if it is one.
pub uninterp spec fn extern_memory(export: wasmtime::Extern) -> Option<wasmtime::Memory>;

/// The function that an export is, if it is one.
pub uninterp spec fn extern_func(export: wasmtime::Extern) -> Option<wasmtime::Func>;

/// The store that owns a function.
pub uninterp spec fn func_store(func: wasmtime::Func) -> int;

/// Whether a function that is given a number may come back with the outcome, a
/// number, something else, or an error, and leave its caller's store so.
pub uninterp spec fn func_may_return(
    func: wasmtime::Func,
    before: wasmtime::Caller<'_, HostState>,
    argument: i32,
    outcome: Result<Option<i32>, wasmtime::Error>,
    after: wasmtime::Caller<'_, HostState>,
) -> bool;

/// Whether two states are of the same caller: its store and its exports stay.
pub open spec fn same_caller(
    a: wasmtime::Caller<'_, HostState>,
    b: wasmtime::Caller<'_, HostState>,
) -> bool {
    &&& caller_store(a) == caller_store(b)
    &&& forall|name: Seq<char>| #[trigger] caller_export(a, name) == caller_export(b, name)
}

/// Whether two states are of the same caller and no memory differs.
pub open spec fn same_memories(
    a: wasmtime::Caller<'_, HostState>,
    b: wasmtime::Caller<'_, HostState>,
) -> bool {
    &&& same_caller(a, b)
    &&& forall|m: wasmtime::Memory| #[trigger] caller_bytes(b, m) == caller_bytes(a, m)
}

/// Calls `Caller::data`.
#[verifier::external_body]
fn state_of<'b>(caller: &'b wasmtime::Caller<'_, HostState>) -> (r: &'b HostState)
    ensures
        *r == caller_state(*caller),
{
    caller.data()
}

/// Calls `Caller::get_export`: what it gives belongs to the caller's store, and
/// no memory changes.
#[verifier::external_body]
fn find_export(caller: &mut wasmtime::Caller<'_, HostState>, name: &str) -> (r: Option<
    wasmtime::Extern,
>)
    ensures
        same_memories(*old(caller), *final(caller)),
        caller_state(*final(caller)) == caller_state(*old(caller)),
        r == caller_export(*old(caller), name@),
        r matches Some(export) ==> extern_store(export) == caller_store(*old(caller)),
{
    caller.get_export(name)
}

/// Calls `Extern::into_memory`.
#[verifier::external_body]
fn into_memory(export: wasmtime::Extern) -> (r: Option<wasmtime::Memory>)
    ensures
        r == extern_memory(export),
        r matches Some(memory) ==> memory_store(memory) == extern_store(export),
{
    export.into_memory()
}

/// Calls `Extern::into_func`.
#[verifier::external_body]
fn into_func(export: wasmtime::Extern) -> (r: Option<wasmtime::Func>)
    ensures
        r == extern_func(export),
        r matches Some(func) ==> func_store(func) == extern_store(export),
{
    export.into_func()
}

/// Calls `Func::call` with one number, for one result: the outcome, and what the
/// guest does to its memory, are up to the guest.
#[verifier::external_body]
fn call_func(
    func: &wasmtime::Func,
    caller: &mut wasmtime::Caller<'_, HostState>,
    argument: i32,
) -> (r: Result<Option<i32>, wasmtime::Error>)
    requires
        func_store(*func) == caller_store(*old(caller)),
    ensures
        same_caller(*old(caller), *final(caller)),
        func_may_return(*func, *old(caller), argument, r, *final(caller)),
{
    let mut results = [wasmtime::Val::I32(0)];
    func.call(caller, &[wasmtime::Val::I32(argument)], &mut results)?;
    Ok(results[0].i32())
}

/// Calls `Memory::read`: it gives the bytes at the offset exactly if they all
/// lie in the memory.
#[verifier::external_body]
fn read_memory(
    memory: &wasmtime::Memory,
    caller: &wasmtime::Caller<'_, HostState>,
    offset: usize,
    length: usize,
) -> (r: Result<Vec<u8>, wasmtime::MemoryAccessError>)
    requires
        memory_store(*memory) == caller_store(*caller),
        length <= isize::MAX,
    ensures
        r is Ok <==> offset + length <= caller_bytes(*caller, *memory).len(),
        r matches Ok(bytes) ==> bytes@ == caller_bytes(*caller, *memory).subrange(
            offset as int,
            offset + length,
        ),
{
    let mut buffer = vec![0u8; length];
    memory.read(caller, offset, &mut buffer)?;
    Ok(buffer)
}

/// Calls `Memory::write`: it puts the bytes at the offset exactly if they all
/// fit into the memory, and changes nothing otherwise.
#[verifier::external_body]
fn write_memory(
    memory: &wasmtime::Memory,
    caller: &mut wasmtime::Caller<'_, HostState>,
    offset: usize,
    data: &[u8],
) -> (r: Result<(), wasmtime::MemoryAccessError>)
    requires
        memory_store(*memory) == caller_store(*old(caller)),
    ensures
        same_caller(*old(caller), *final(caller)),
        r is Ok <==> offset + data@.len() <= caller_bytes(*old(caller), *memory).len(),
        caller_bytes(*final(caller), *memory) == if r is Ok {
            overwritten(caller_bytes(*old(caller), *memory), offset as int, data@)
        } else {
            caller_bytes(*old(caller), *memory)
        },
{
    memory.write(caller, offset, data)
}

/// The memory that a caller exports under a name.
pub open spec fn caller_memory(
    caller: wasmtime::Caller<'_, HostState>,
    name: Seq<char>,
) -> Option<wasmtime::Memory> {
    match caller_export(caller, name) {
        Some(export) => extern_memory(export),
        None => None,
    }
}

/// The function that a caller exports under a name.
pub open spec fn caller_func(
    caller: wasmtime::Caller<'_, HostState>,
    name: Seq<char>,
) -> Option<wasmtime::Func> {
    match caller_export(caller, name) {
        Some(export) => extern_func(export),
        None => None,
    }
}

/// The most bytes that a guest can send in one message.
pub const MAX_WASM_MSG_SIZE: usize = 16_777_216;

/// Why a host function does not do what it was asked.
#[derive(Debug)]
pub struct Refusal {
    pub code: String,
    pub message: String,
}

/// What a refusal holds.
pub struct RefusalView {
    pub code: Seq<char>,
    pub message: Seq<char>,
}

impl View for Refusal {
    type V = RefusalView;

    open spec fn view(&self) -> RefusalView {
        RefusalView { code: self.code@, message: self.message@ }
    }
}

/// A refusal with a fixed text.
fn refusal(code: &str, message: &str) -> (r: Refusal)
    ensures
        r@ == (RefusalView { code: code@, message: message@ }),
{
    Refusal { code: code.to_owned(), message: message.to_owned() }
}

/// The result that tells a guest of a refusal.
pub open spec fn is_error_result(refusal: RefusalView, wr: WasmResult) -> bool {
    &&& wr.action@ == "error"@
    &&& wr.response is None
    &&& wr.error matches Some(error) && error.code@ == refusal.code && error.message@
        == refusal.message && error.meta@.len() == 0
}

/// The result that tells a guest of a refusal.
pub fn error_result(refusal: Refusal) -> (r: WasmResult)
    ensures
        is_error_result(refusal@, r),
{
    WasmResult {
        action: "error".to_owned(),
        response: None,
        error: Some(
            WasmError { code: refusal.code, message: refusal.message, meta: Vec::new() },
        ),
    }
}

/// A guest that is told of a refusal reads an error with its code and text.
pub proof fn refusal_is_read_as_error(refusal: RefusalView, wr: WasmResult)
    requires
        is_error_result(refusal, wr),
    ensures
        wr.meaning() == ResultView::failed(refusal.code, refusal.message),
{
    action_name_is_read_back(Action::Error);
    assert(wire_pairs(wr.error->0.meta@) =~= Seq::<Pair>::empty());
    assert(pairs_map(wire_pairs(wr.error->0.meta@)) =~= Map::empty());
}

/// The bytes of the message that a guest sends, or why they are not taken:
/// there is no context, no memory, the message is too large, or it does not lie
/// in the memory.
pub open spec fn sent_bytes(
    caller: wasmtime::Caller<'_, HostState>,
    msg_ptr: i32,
    msg_len: i32,
) -> Result<Seq<u8>, RefusalView> {
    if caller_state(caller).context is None {
        Err(RefusalView { code: "internal"@, message: "no wafer context"@ })
    } else {
        match caller_memory(caller, "memory"@) {
            None => Err(RefusalView { code: "memory_error"@, message: "memory not found"@ }),
            Some(memory) => {
                let bytes = caller_bytes(caller, memory);
                let offset = msg_ptr as usize;
                if msg_len < 0 || msg_len > MAX_WASM_MSG_SIZE {
                    Err(
                        RefusalView {
                            code: "msg_too_large"@,
                            message: "message size "@ + signed_numeral(msg_len as int)
                                + " exceeds maximum "@ + numeral(MAX_WASM_MSG_SIZE as nat),
                        },
                    )
                } else if offset + msg_len > bytes.len() {
                    Err(RefusalView { code: "memory_error"@, message: "read failed"@ })
                } else {
                    Ok(bytes.subrange(offset as int, offset + msg_len))
                }
            },
        }
    }
}

/// Takes the bytes of the message that a guest sends.
pub fn take_message(
    caller: &mut wasmtime::Caller<'_, HostState>,
    msg_ptr: i32,
    msg_len: i32,
) -> (r: Result<Vec<u8>, Refusal>)
    ensures
        same_memories(*old(caller), *final(caller)),
        caller_state(*final(caller)) == caller_state(*old(caller)),
        sent_bytes(*old(caller), msg_ptr, msg_len) == match r {
            Ok(bytes) => Ok::<_, RefusalView>(bytes@),
            Err(refusal) => Err::<Seq<u8>, _>(refusal@),
        },
{
    if state_of(caller).context.is_none() {
        return Err(refusal("internal", "no wafer context"));
    }
    let found = match find_export(caller, "memory") {
        Some(export) => into_memory(export),
        None => None,
    };
    let memory = match found {
        Some(memory) => memory,
        None => return Err(refusal("memory_error", "memory not found")),
    };
    if msg_len < 0 || msg_len as usize > MAX_WASM_MSG_SIZE {
        let size = signed_text(msg_len);
        let most = unsigned_text(MAX_WASM_MSG_SIZE as u64);
        let a = join("message size ", size.as_str());
        let b = join(a.as_str(), " exceeds maximum ");
        return Err(
            Refusal {
                code: "msg_too_large".to_owned(),
                message: join(b.as_str(), most.as_str()),
            },
        );
    }
    match read_memory(&memory, caller, msg_ptr as usize, msg_len as usize) {
        Ok(bytes) => Ok(bytes),
        Err(_) => Err(refusal("memory_error", "read failed")),
    }
}

/// Whether the context of a state may answer a message in this way.
pub open spec fn context_answers(state: HostState, msg: MessageView, wr: WasmResult) -> bool {
    exists|result: ResultView| #[trigger]
        state.context->0.may_answer(msg, result) && wr.writes(result)
}

/// What a message leads to once it was read: the context is sent it and its
/// result is written for the guest, or the guest is refused.
pub open spec fn answered(
    state: HostState,
    msg: Result<WasmMessage, String>,
    r: Result<WasmResult, Refusal>,
) -> bool {
    match msg {
        Err(text) => r matches Err(refusal) && refusal@ == (RefusalView {
            code: "decode_error"@,
            message: text@,
        }),
        Ok(wm) => if state.context is Some {
            r matches Ok(wr) && context_answers(state, wm.meaning(), wr)
        } else {
            r matches Err(refusal) && refusal@ == (RefusalView {
                code: "internal"@,
                message: "no wafer context"@,
            })
        },
    }
}

/// Sends a message to the context once it was read.
pub fn answer_message(state: &HostState, msg: Result<WasmMessage, String>) -> (r: Result<
    WasmResult,
    Refusal,
>)
    ensures
        answered(*state, msg, r),
{
    let wm = match msg {
        Ok(wm) => wm,
        Err(text) => return Err(Refusal { code: "decode_error".to_owned(), message: text }),
    };
    let ghost meant = wm.meaning();
    let msg = message_from_wasm(wm);
    match &state.context {
        Some(context) => {
            let result = context.send(&msg);
            let wr = result_to_wasm(&result);
            assert(state.context->0.may_answer(meant, result@));
            assert(context_answers(*state, meant, wr));
            Ok(wr)
        },
        None => Err(refusal("internal", "no wafer context")),
    }
}

/// The refusal that stands for a result that could not be written.
pub fn encode_refusal(text: String) -> (r: Refusal)
    ensures
        r@ == (RefusalView { code: "encode_error"@, message: text@ }),
{
    Refusal { code: "encode_error".to_owned(), message: text }
}

/// The capabilities that a guest is told of: none without a context.
pub fn guest_capabilities(state: &HostState) -> (r: Vec<CapabilityInfo>)
    ensures
        match state.context {
            Some(context) => context.may_list(r@),
            None => r@.len() == 0,
        },
{
    match &state.context {
        Some(context) => context.capabilities(),
        None => Vec::new(),
    }
}

/// Whether a guest is told that it was cancelled: never without a context.
pub fn guest_is_cancelled(state: &HostState) -> (r: i32)
    ensures
        match state.context {
            Some(context) => (r == 1 && context.may_say_cancelled(true)) || (r == 0
                && context.may_say_cancelled(false)),
            None => r == 0,
        },
{
    match &state.context {
        Some(context) => {
            if context.is_cancelled() {
                1
            } else {
                0
            }
        },
        None => 0,
    }
}

/// What putting bytes where the guest allocated leads to, given the bytes of the
/// memory before and after.
pub open spec fn put(before: Seq<u8>, after: Seq<u8>, ptr: i32, data: Seq<u8>, r: i64) -> bool {
    let offset = ptr as usize;
    if offset + data.len() <= before.len() {
        &&& r == packed(ptr, data.len() as i32)
        &&& after == overwritten(before, offset as int, data)
    } else {
        &&& r == 0
        &&& after == before
    }
}

/// Bytes that were put into a memory are at the place that the guest is told,
/// and the rest of the memory is as it was.
pub proof fn guest_finds_what_was_put(
    before: Seq<u8>,
    after: Seq<u8>,
    ptr: i32,
    data: Seq<u8>,
    r: i64,
)
    requires
        put(before, after, ptr, data, r),
        ptr as usize + data.len() <= before.len(),
    ensures
        r == packed(ptr, data.len() as i32),
        after.len() == before.len(),
        after.subrange(ptr as usize as int, ptr as usize + data.len()) == data,
        forall|i: int|
            0 <= i < before.len() && !(ptr as usize <= i < ptr as usize + data.len())
                ==> #[trigger] after[i] == before[i],
{
    let offset = ptr as usize as int;
    assert(after.subrange(offset, offset + data.len()) =~= data);
}

/// What handing bytes back leads to once the allocator has come back and left
/// the caller's store so.
pub open spec fn put_back(
    left: wasmtime::Caller<'_, HostState>,
    after: wasmtime::Caller<'_, HostState>,
    memory: Option<wasmtime::Memory>,
    data: Seq<u8>,
    outcome: Result<Option<i32>, wasmtime::Error>,
    r: i64,
) -> bool {
    match outcome {
        Ok(Some(ptr)) => match memory {
            Some(memory) => put(
                caller_bytes(left, memory),
                caller_bytes(after, memory),
                ptr,
                data,
                r,
            ),
            None => r == 0 && same_memories(left, after),
        },
        _ => r == 0 && same_memories(left, after),
    }
}

/// Whether an allocator that is asked for so many bytes may come back with the
/// outcome and leave the caller's store so.
pub open spec fn asked(
    before: wasmtime::Caller<'_, HostState>,
    malloc: wasmtime::Func,
    size: nat,
    outcome: Result<Option<i32>, wasmtime::Error>,
    left: wasmtime::Caller<'_, HostState>,
) -> bool {
    exists|state: wasmtime::Caller<'_, HostState>|
        same_memories(before, state) && #[trigger] func_may_return(
            malloc,
            state,
            size as i32,
            outcome,
            left,
        )
}

/// What handing bytes back to a guest leads to: its `malloc` is asked for as
/// many bytes, they are written where it says, and the place is packed. Zero
/// stands for any failure.
pub open spec fn handed_back(
    before: wasmtime::Caller<'_, HostState>,
    after: wasmtime::Caller<'_, HostState>,
    data: Seq<u8>,
    r: i64,
) -> bool {
    match caller_func(before, "malloc"@) {
        Some(malloc) => exists|
            outcome: Result<Option<i32>, wasmtime::Error>,
            left: wasmtime::Caller<'_, HostState>,
        | #[trigger]
            asked(before, malloc, data.len(), outcome, left) && put_back(
                left,
                after,
                caller_memory(before, "memory"@),
                data,
                outcome,
                r,
            ),
        None => r == 0 && same_memories(before, after),
    }
}

/// Hands bytes back to a guest: the place where they are, packed, or zero.
pub fn hand_back(caller: &mut wasmtime::Caller<'_, HostState>, data: &[u8]) -> (r: i64)
    ensures
        same_caller(*old(caller), *final(caller)),
        handed_back(*old(caller), *final(caller), data@, r),
{
    let found = match find_export(caller, "malloc") {
        Some(export) => into_func(export),
        None => None,
    };
    let malloc = match found {
        Some(malloc) => malloc,
        None => return 0,
    };
    let size: i32 = data.len() as i32;
    let outcome = call_func(&malloc, caller, size);
    assert(asked(
        *old(caller),
        caller_func(*old(caller), "malloc"@)->0,
        data@.len(),
        outcome,
        *caller,
    ));
    let ptr: i32 = match outcome {
        Ok(Some(ptr)) => ptr,
        _ => return 0,
    };
    let found = match find_export(caller, "memory") {
        Some(export) => into_memory(export),
        None => None,
    };
    assert(found == caller_memory(*old(caller), "memory"@));
    let memory = match found {
        Some(memory) => memory,
        None => return 0,
    };
    let r: i64 = match write_memory(&memory, caller, ptr as usize, data) {
        Ok(_) => pack_i64(ptr, size),
        Err(_) => 0,
    };
    r
}

} // verus!
