//! What the operations on guests do, from what they are given to what they
//! return.
use vstd::prelude::*;

use crate::block::BlockInfo;
use crate::context::CapabilityInfo;
use crate::laws::blocks::{blocks_must_have_four_exports, reports};
use crate::laws::boundary::results_are_read_field_by_field;
use crate::laws::host::{
    errors_and_responses_reach_the_guest, guests_read_what_the_context_answered,
};
use crate::types::{Message, ResultView, Result_, WaferError};
use crate::wasm::format::{LcResult, WasmMessage, WasmResult};
use crate::wasm::guest::{
    instance_module, instance_store, linker_engine, linker_host_only, module_exports,
    module_source, store_id, store_is_new, store_made_with, HostState,
};
use crate::wasm::host::{
    answer_message, encode_refusal, error_result, guest_capabilities, guest_is_cancelled,
    is_error_result, Refusal,
};
use crate::wasm::info::{info_begun, InfoCache, InfoStep};
use crate::wasm::invoke::{
    function_missing, handle_led_to, handle_prevented, handle_view, lifecycle_led_to,
    lifecycle_view, GuestCall, SpentCall,
};
use crate::wasm::loader::{
    bytes_view, check_exports, freshly_made, host_linker, info_failed, info_of_new,
    instance_complaint, load_complaint, WASMBlock,
};

verus! {

/// A message that a guest sent and that was read reaches the context as it was
/// written, and the guest is handed what reads back as the result that the
/// context answered with: an error where there is one, with its code and text,
/// and a response where there is one, with its bytes.
pub proof fn guests_are_handed_what_was_answered(
    state: &HostState,
    msg: Result<WasmMessage, String>,
    r: Result<WasmResult, Refusal>,
)
    requires
        call_ensures(answer_message, (state, msg), r),
    ensures
        msg is Err ==> r is Err && r->Err_0.code@ == "decode_error"@ && r->Err_0.message@
            == msg->Err_0@,
        msg is Ok && state.context is None ==> r is Err && r->Err_0.code@ == "internal"@
            && r->Err_0.message@ == "no wafer context"@,
        msg is Ok && state.context is Some ==> r is Ok && exists|result: ResultView| #[trigger]
            state.context->0.may_answer(msg->Ok_0.meaning(), result) && r->Ok_0.meaning() == (
            ResultView { message: None, ..result }) && (r->Ok_0.error is Some
                <==> result.error is Some) && (r->Ok_0.response is Some
                <==> result.response is Some),
{
    if msg is Ok && state.context is Some {
        guests_read_what_the_context_answered(*state, msg->Ok_0, r);
        let result = choose|result: ResultView| #[trigger]
            state.context->0.may_answer(msg->Ok_0.meaning(), result) && r->Ok_0.meaning() == (
            ResultView { message: None, ..result });
        results_are_read_field_by_field(r->Ok_0);
        assert(state.context->0.may_answer(msg->Ok_0.meaning(), result));
    }
}

/// The error of a context reaches the guest field by field.
pub proof fn guests_are_handed_the_error(
    state: &HostState,
    msg: WasmMessage,
    r: Result<WasmResult, Refusal>,
)
    requires
        state.context is Some,
        call_ensures(answer_message, (state, Ok(msg)), r),
    ensures
        r is Ok,
        exists|result: ResultView| #[trigger]
            state.context->0.may_answer(msg.meaning(), result) && {
                &&& r->Ok_0.error is Some <==> result.error is Some
                &&& result.error is Some ==> r->Ok_0.error->0.code@ == result.error->0.code
                    && r->Ok_0.error->0.message@ == result.error->0.message
                &&& r->Ok_0.response is Some <==> result.response is Some
                &&& result.response is Some ==> r->Ok_0.response->0.data@
                    == result.response->0.data
            },
{
    errors_and_responses_reach_the_guest(*state, msg, r);
}

/// A refusal is written with its own code and text; the one that stands for a
/// result that could not be written says why.
pub proof fn refusals_are_written(refusal: Refusal, wr: WasmResult, text: String, e: Refusal)
    requires
        call_ensures(error_result, (refusal,), wr),
        call_ensures(encode_refusal, (text,), e),
    ensures
        wr.action@ == "error"@,
        wr.response is None,
        wr.error is Some,
        wr.error->0.code@ == refusal.code@,
        wr.error->0.message@ == refusal.message@,
        wr.error->0.meta@.len() == 0,
        e.code@ == "encode_error"@,
        e.message@ == text@,
{
    assert(is_error_result(refusal@, wr));
    assert(refusal@.code == refusal.code@ && refusal@.message == refusal.message@);
    assert(e@.code == e.code@ && e@.message == e.message@);
}

/// A guest is told the capabilities that its context lists and whether its
/// context says that it was cancelled; without a context there are none, and it
/// was not.
pub proof fn guests_are_told_by_their_context(
    state: &HostState,
    listed: Vec<CapabilityInfo>,
    cancelled: i32,
)
    requires
        call_ensures(guest_capabilities, (state,), listed),
        call_ensures(guest_is_cancelled, (state,), cancelled),
    ensures
        state.context is None ==> listed@.len() == 0 && cancelled == 0,
        state.context is Some ==> state.context->0.may_list(listed@),
        state.context is Some ==> (cancelled == 1 || cancelled == 0)
            && state.context->0.may_say_cancelled(cancelled == 1),
{
}

/// Names of exports are enough for a block exactly if the four are among them;
/// otherwise the complaint names the first that is missing.
pub proof fn exports_are_checked(names: &Vec<String>, r: Result<(), String>)
    requires
        call_ensures(check_exports, (names,), r),
    ensures
        ({
            let given = names@.map_values(|n: String| n@);
            &&& r is Ok <==> given.contains("info"@) && given.contains("handle"@)
                && given.contains("lifecycle"@) && given.contains("malloc"@)
            &&& !given.contains("info"@) ==> r->Err_0@
                == "WASM module missing required export: "@ + "info"@
            &&& given.contains("info"@) && !given.contains("handle"@) ==> r->Err_0@
                == "WASM module missing required export: "@ + "handle"@
            &&& given.contains("info"@) && given.contains("handle"@) && !given.contains(
                "lifecycle"@,
            ) ==> r->Err_0@ == "WASM module missing required export: "@ + "lifecycle"@
            &&& given.contains("info"@) && given.contains("handle"@) && given.contains(
                "lifecycle"@,
            ) && !given.contains("malloc"@) ==> r->Err_0@
                == "WASM module missing required export: "@ + "malloc"@
        }),
{
    blocks_must_have_four_exports(names@.map_values(|n: String| n@));
}

/// A block is loaded from just these bytes, for just these host functions, and
/// has the four exports; what is not loaded is told why.
pub proof fn blocks_are_loaded_from_their_bytes(
    wasm_bytes: &[u8],
    linker: wasmtime::Linker<HostState>,
    r: Result<WASMBlock, String>,
)
    requires
        linker_host_only(linker),
        call_ensures(WASMBlock::load_from_bytes, (wasm_bytes, linker), r),
    ensures
        r is Ok ==> module_source(r->Ok_0.module()) == wasm_bytes@ && r->Ok_0.linker() == linker
            && module_exports(r->Ok_0.module()).contains("info"@) && module_exports(
            r->Ok_0.module(),
        ).contains("handle"@) && module_exports(r->Ok_0.module()).contains("lifecycle"@)
            && module_exports(r->Ok_0.module()).contains("malloc"@),
        r is Err ==> load_complaint(linker_engine(linker), wasm_bytes@, r->Err_0@),
{
    if r is Ok {
        blocks_must_have_four_exports(module_exports(r->Ok_0.module()));
    }
}

/// An instance is of the block, is new, and lives in a store that holds the
/// state; where there is none the complaint says why.
pub proof fn instances_are_made_afresh(
    block: &WASMBlock,
    state: HostState,
    r: Result<(wasmtime::Store<HostState>, wasmtime::Instance), String>,
)
    requires
        call_ensures(WASMBlock::create_instance, (block, state), r),
    ensures
        r is Ok ==> instance_store(r->Ok_0.1) == store_id(r->Ok_0.0) && instance_module(r->Ok_0.1)
            == block.module() && store_made_with(r->Ok_0.0) == state && freshly_made(
            *block,
            state,
            r->Ok_0.1,
            r->Ok_0.0,
        ),
        r is Err ==> instance_complaint(*block, state, r->Err_0@),
{
}

/// A block is asked for its self-description in a new instance.
pub proof fn descriptions_are_asked_for(block: &WASMBlock, r: Result<Vec<u8>, BlockInfo>)
    requires
        call_ensures(WASMBlock::info_bytes, (block,), r),
    ensures
        r is Ok ==> info_of_new(*block, Ok(r->Ok_0@)),
        r is Err ==> info_failed(*block, r->Err_0@),
{
}

/// A self-description that is kept is given, and otherwise the block is to be
/// asked.
pub proof fn kept_descriptions_are_given(cache: &InfoCache, r: InfoStep)
    requires
        call_ensures(InfoCache::begin, (cache,), r),
    ensures
        r@ == info_begun(cache@),
        cache@ is Some ==> r is Known && r->Known_0@ == cache@->0,
        cache@ is None ==> r is Ask,
{
}

/// A block is made ready for a message or an event in a new instance, by its
/// function of that name.
pub proof fn blocks_are_made_ready_in_a_new_instance(
    block: &WASMBlock,
    state: HostState,
    msg: &Message,
    h: Result<GuestCall, Result_>,
    l: Result<Option<GuestCall>, WaferError>,
)
    requires
        call_ensures(WASMBlock::handle_start, (block, state, msg), h),
        call_ensures(WASMBlock::lifecycle_start, (block, state), l),
    ensures
        h is Ok ==> h->Ok_0.is_of(*block, state, "handle"@),
        h is Err ==> handle_prevented(*block, state, msg@, h->Err_0@),
        l is Ok && l->Ok_0 is Some ==> l->Ok_0->0.is_of(*block, state, "lifecycle"@),
        l is Ok && l->Ok_0 is None ==> exists|text: Seq<char>| #[trigger]
            function_missing(*block, state, "lifecycle"@, text),
        l is Err ==> l->Err_0@.code == "wasm_error"@ && instance_complaint(
            *block,
            state,
            l->Err_0@.message,
        ),
{
}

/// A block is run with the encoded message or event, and its store is left as it
/// left it.
pub proof fn blocks_are_run(
    call: GuestCall,
    encoded: Result<Vec<u8>, String>,
    msg: &Message,
    h: (Result<Vec<u8>, Result_>, SpentCall),
    l: (Result<Option<Vec<u8>>, WaferError>, SpentCall),
)
    requires
        call_ensures(WASMBlock::handle_run, (call, encoded, msg), h),
        call_ensures(WASMBlock::lifecycle_run, (call, encoded), l),
    ensures
        handle_led_to(call, bytes_view(encoded), msg@, handle_view(h.0), h.1.store()),
        lifecycle_led_to(call, bytes_view(encoded), lifecycle_view(l.0), l.1.store()),
        !store_is_new(h.1.store()) && !store_is_new(l.1.store()),
{
}

/// Bytes, results and errors in the outcome of a run are those that came back.
pub proof fn outcomes_are_what_came_back(
    encoded: Result<Vec<u8>, String>,
    h: Result<Vec<u8>, Result_>,
    l: Result<Option<Vec<u8>>, WaferError>,
)
    ensures
        encoded is Ok ==> bytes_view(encoded) == Ok::<Seq<u8>, Seq<char>>(encoded->Ok_0@),
        encoded is Err ==> bytes_view(encoded) == Err::<Seq<u8>, Seq<char>>(encoded->Err_0@),
        h is Ok ==> handle_view(h) == Ok::<Seq<u8>, ResultView>(h->Ok_0@),
        h is Err ==> handle_view(h) == Err::<Seq<u8>, ResultView>(h->Err_0@),
        l is Ok <==> lifecycle_view(l) is Ok,
        l is Ok ==> (l->Ok_0 is Some <==> lifecycle_view(l)->Ok_0 is Some),
        l is Ok && l->Ok_0 is Some ==> lifecycle_view(l)->Ok_0->0 == l->Ok_0->0@,
        l is Err ==> lifecycle_view(l)->Err_0 == l->Err_0@,
{
}

/// The result of a block is the one that it wrote, and hands the message back; a
/// result that could not be read is reported with the reason.
pub proof fn results_of_blocks_are_theirs(
    read: Result<WasmResult, String>,
    msg: &Message,
    r: Result_,
)
    requires
        call_ensures(WASMBlock::handle_finish, (read, msg), r),
    ensures
        read is Ok ==> r@.message == Some(msg@) && r@.action == read->Ok_0.meaning().action
            && r@.response == read->Ok_0.meaning().response && r@.error
            == read->Ok_0.meaning().error,
        read is Err ==> reports(
            r@,
            msg@,
            "wasm_decode_error"@,
            "reading result: "@ + read->Err_0@,
        ),
{
}

/// A block complains of an event exactly if its answer was read and holds an
/// error text, and the complaint is that text.
pub proof fn blocks_complain_with_their_text(
    read: Result<LcResult, String>,
    r: Result<(), WaferError>,
)
    requires
        call_ensures(WASMBlock::lifecycle_finish, (read,), r),
    ensures
        r is Err <==> read is Ok && read->Ok_0.error@.len() > 0,
        r is Err ==> r->Err_0@.code == "lifecycle_error"@ && r->Err_0@.message
            == read->Ok_0.error@,
{
}

/// What stands in for a self-description says so, and why.
pub proof fn stand_ins_are_made(summary: String, r: BlockInfo)
    requires
        call_ensures(BlockInfo::unknown, (summary,), r),
    ensures
        r@.name == "unknown"@,
        r@.version == "0.0.0"@,
        r@.interface == "error"@,
        r@.summary == summary@,
        r@.allowed_modes.len() == 0,
        r@.admin_ui is None,
{
}

/// A linker for host functions holds nothing else.
pub proof fn linkers_hold_host_functions_only(r: wasmtime::Linker<HostState>)
    requires
        call_ensures(host_linker, (), r),
    ensures
        linker_host_only(r),
{
}

} // verus!
