//! Blocks that are compiled from WebAssembly.
use vstd::prelude::*;

use crate::block::{BlockInfo, BlockInfoView};
use crate::text::{join, text_eq};
use crate::wasm::guest::{
    call_producer, compile, compile_may_fail, engine_of, error_text, export_names, exported_memory,
    exported_producer, find_producer, guest_error_text, initial_bytes, instance_module,
    instance_store, instantiate, instantiate_may_fail, instantiate_may_give, linker_engine,
    linker_host_only, lookup_text, memory_bytes, module_engine, module_exports, module_source,
    new_engine, new_linker, new_store, producer_may_return, runs_at_start, same_memories,
    same_store, store_id, store_is_new, store_made_with, HostState,
};
use crate::wasm::memory::{read_from_memory, taken};
use crate::wasm::packed::{packed, unpack_i64};

verus! {

/// The first export that a block must have and that is not among the names.
pub open spec fn missing_export(names: Seq<Seq<char>>) -> Option<Seq<char>> {
    if !names.contains("info"@) {
        Some("info"@)
    } else if !names.contains("handle"@) {
        Some("handle"@)
    } else if !names.contains("lifecycle"@) {
        Some("lifecycle"@)
    } else if !names.contains("malloc"@) {
        Some("malloc"@)
    } else {
        None
    }
}

/// The complaint about an export that is missing.
pub open spec fn export_complaint(name: Seq<char>) -> Seq<char> {
    "WASM module missing required export: "@ + name
}

/// Whether a name is among others.
fn has_name(names: &Vec<String>, name: &str) -> (r: bool)
    ensures
        r == names@.map_values(|n: String| n@).contains(name@),
{
    let ghost views = names@.map_values(|n: String| n@);
    let n: usize = names.len();
    let mut i: usize = 0;
    while i < n
        invariant
            i <= n,
            n == names@.len(),
            views == names@.map_values(|n: String| n@),
            forall|j: int| 0 <= j < i ==> #[trigger] views[j] != name@,
        decreases n - i,
    {
        if text_eq(names[i].as_str(), name) {
            assert(views[i as int] == name@);
            return true;
        }
        i = i + 1;
    }
    false
}

/// Checks that a block has the exports that it must have.
pub fn check_exports(names: &Vec<String>) -> (r: Result<(), String>)
    ensures
        match missing_export(names@.map_values(|n: String| n@)) {
            Some(name) => r matches Err(text) && text@ == export_complaint(name),
            None => r is Ok,
        },
{
    if !has_name(names, "info") {
        Err(join("WASM module missing required export: ", "info"))
    } else if !has_name(names, "handle") {
        Err(join("WASM module missing required export: ", "handle"))
    } else if !has_name(names, "lifecycle") {
        Err(join("WASM module missing required export: ", "lifecycle"))
    } else if !has_name(names, "malloc") {
        Err(join("WASM module missing required export: ", "malloc"))
    } else {
        Ok(())
    }
}

/// An empty linker, for the host functions that guests can import.
pub fn host_linker() -> (r: wasmtime::Linker<HostState>)
    ensures
        linker_host_only(r),
{
    let engine = new_engine();
    new_linker(&engine)
}

/// A compiled block.
pub struct WASMBlock {
    engine: wasmtime::Engine,
    module: wasmtime::Module,
    linker: wasmtime::Linker<HostState>,
}

/// Whether bytes may be refused with this complaint: they do not compile with
/// the engine, or the module lacks an export.
pub open spec fn load_complaint(
    engine: wasmtime::Engine,
    wasm_bytes: Seq<u8>,
    text: Seq<char>,
) -> bool {
    ||| exists|e: wasmtime::Error| #[trigger]
        compile_may_fail(engine, wasm_bytes, e) && text == "compiling WASM module: "@
            + guest_error_text(e)
    ||| exists|module: wasmtime::Module|
        #[trigger] module_source(module) == wasm_bytes && module_engine(module) == engine && (
        missing_export(module_exports(module)) matches Some(name) && text == export_complaint(
            name,
        ))
}

/// Whether the memories of an instance hold what its module gives them to begin
/// with. A module with a start function may have written to them since.
pub open spec fn begins_as_written(
    module: wasmtime::Module,
    instance: wasmtime::Instance,
    store: wasmtime::Store<HostState>,
) -> bool {
    !runs_at_start(module) ==> forall|name: Seq<char>|
        (#[trigger] exported_memory(instance, name)) matches Some(memory) ==> memory_bytes(
            store,
            memory,
        ) == initial_bytes(module, name)
}

/// Whether the instance, and the store as it is, are what comes of linking the
/// block's module with its host functions in a new store that holds the state,
/// with nothing run since.
pub open spec fn freshly_made(
    block: WASMBlock,
    state: HostState,
    instance: wasmtime::Instance,
    store: wasmtime::Store<HostState>,
) -> bool {
    &&& !store_is_new(store)
    &&& begins_as_written(block.module(), instance, store)
    &&& exists|begin: wasmtime::Store<HostState>|
        store_is_new(begin) && store_made_with(begin) == state && #[trigger] instantiate_may_give(
            block.linker(),
            begin,
            block.module(),
            instance,
            store,
        )
}

/// Whether a block may fail to be made ready to run in this state, with this
/// complaint.
pub open spec fn instance_complaint(block: WASMBlock, state: HostState, text: Seq<char>) -> bool {
    exists|store: wasmtime::Store<HostState>, e: wasmtime::Error|
        store_is_new(store) && store_made_with(store) == state && #[trigger] instantiate_may_fail(
            block.linker(),
            store,
            block.module(),
            e,
        ) && text == "instantiating WASM module: "@ + guest_error_text(e)
}

impl WASMBlock {
    /// The module of the block.
    pub closed spec fn module(self) -> wasmtime::Module {
        self.module
    }

    /// The host functions that the block is linked with.
    pub closed spec fn linker(self) -> wasmtime::Linker<HostState> {
        self.linker
    }

    #[verifier::type_invariant]
    spec fn parts_belong_together(self) -> bool {
        &&& linker_host_only(self.linker)
        &&& linker_engine(self.linker) == self.engine
        &&& module_engine(self.module) == self.engine
        &&& missing_export(module_exports(self.module)) is None
    }

    /// Loads a block from the bytes of a module, to be linked with host
    /// functions.
    pub fn load_from_bytes(wasm_bytes: &[u8], linker: wasmtime::Linker<HostState>) -> (r: Result<
        Self,
        String,
    >)
        requires
            linker_host_only(linker),
        ensures
            match r {
                Ok(block) => module_source(block.module()) == wasm_bytes@ && block.linker()
                    == linker && missing_export(module_exports(block.module())) is None,
                Err(text) => load_complaint(linker_engine(linker), wasm_bytes@, text@),
            },
    {
        let engine = engine_of(&linker);
        let module = match compile(&engine, wasm_bytes) {
            Ok(module) => module,
            Err(e) => {
                let text = error_text(&e);
                return Err(join("compiling WASM module: ", text.as_str()));
            },
        };
        let names = export_names(&module);
        match check_exports(&names) {
            Ok(_) => Ok(WASMBlock { engine, module, linker }),
            Err(text) => {
                assert(module_source(module) == wasm_bytes@);
                Err(text)
            },
        }
    }

    /// Makes the block ready to run, in a store of its own.
    pub fn create_instance(&self, state: HostState) -> (r: Result<
        (wasmtime::Store<HostState>, wasmtime::Instance),
        String,
    >)
        ensures
            match r {
                Ok((store, instance)) => instance_store(instance) == store_id(store)
                    && instance_module(instance) == self.module() && store_made_with(store)
                    == state && freshly_made(*self, state, instance, store),
                Err(text) => instance_complaint(*self, state, text@),
            },
    {
        proof {
            use_type_invariant(self);
        }
        let mut store = new_store(&self.engine, state);
        let ghost begin = store;
        match instantiate(&self.linker, &mut store, &self.module) {
            Ok(instance) => {
                assert(instantiate_may_give(self.linker(), begin, self.module(), instance, store));
                Ok((store, instance))
            },
            Err(e) => {
                assert(instantiate_may_fail(self.linker(), begin, self.module(), e));
                let text = error_text(&e);
                Err(join("instantiating WASM module: ", text.as_str()))
            },
        }
    }
}

/// What taking the answer of a guest gives: the place is unpacked, and the bytes
/// there are taken from the store as the guest left it.
pub open spec fn answer_taken(
    left: wasmtime::Store<HostState>,
    instance: wasmtime::Instance,
    packed_pair: i64,
    r: Result<Seq<u8>, Seq<char>>,
) -> bool {
    exists|ptr: i32, len: i32|
        packed_pair == packed(ptr, len) && r == #[trigger] taken(
            left,
            instance,
            ptr as u32,
            len as u32,
        )
}

/// Bytes or the text of a complaint.
pub open spec fn bytes_view(r: Result<Vec<u8>, String>) -> Result<Seq<u8>, Seq<char>> {
    match r {
        Ok(bytes) => Ok(bytes@),
        Err(text) => Err(text@),
    }
}

/// Takes the answer of a guest.
pub(crate) fn take_answer(
    store: &mut wasmtime::Store<HostState>,
    instance: &wasmtime::Instance,
    packed_pair: i64,
) -> (r: Result<Vec<u8>, String>)
    requires
        instance_store(*instance) == store_id(*old(store)),
    ensures
        same_memories(*old(store), *final(store)),
        answer_taken(*old(store), *instance, packed_pair, bytes_view(r)),
{
    let (ptr, len) = unpack_i64(packed_pair);
    let r = read_from_memory(store, instance, ptr as u32, len as u32);
    assert(bytes_view(r) == taken(*old(store), *instance, ptr as u32, len as u32));
    r
}

/// What asking a guest for its self-description gives, once its function has
/// come back and left the store so.
pub open spec fn info_answered(
    left: wasmtime::Store<HostState>,
    instance: wasmtime::Instance,
    outcome: Result<i64, wasmtime::Error>,
    r: Result<Seq<u8>, Seq<char>>,
) -> bool {
    match outcome {
        Ok(pair) => exists|answer: Result<Seq<u8>, Seq<char>>| #[trigger]
            answer_taken(left, instance, pair, answer) && r == match answer {
                Ok(bytes) => Ok::<Seq<u8>, Seq<char>>(bytes),
                Err(text) => Err::<Seq<u8>, Seq<char>>("reading info from memory: "@ + text),
            },
        Err(e) => r == Err::<Seq<u8>, Seq<char>>("calling info failed: "@ + guest_error_text(e)),
    }
}

/// Whether the `info` function of an instance may come back with the outcome and
/// leave the store so.
pub open spec fn info_called(
    before: wasmtime::Store<HostState>,
    instance: wasmtime::Instance,
    outcome: Result<i64, wasmtime::Error>,
    left: wasmtime::Store<HostState>,
) -> bool {
    exists|state: wasmtime::Store<HostState>|
        same_memories(before, state) && #[trigger] producer_may_return(
            exported_producer(instance, "info"@)->0,
            state,
            outcome,
            left,
        )
}

/// What asking an instance for its self-description gives: the bytes that its
/// `info` points to, or why there are none. The function runs once, and the
/// memories are left as it left them.
pub open spec fn info_asked(
    before: wasmtime::Store<HostState>,
    instance: wasmtime::Instance,
    r: Result<Seq<u8>, Seq<char>>,
    after: wasmtime::Store<HostState>,
) -> bool {
    if exported_producer(instance, "info"@) is Some {
        exists|outcome: Result<i64, wasmtime::Error>, left: wasmtime::Store<HostState>| #[trigger]
            info_called(before, instance, outcome, left) && info_answered(
                left,
                instance,
                outcome,
                r,
            ) && same_memories(left, after)
    } else {
        same_memories(before, after) && r == Err::<Seq<u8>, Seq<char>>(
            "info export not found: "@ + lookup_text(instance, "info"@),
        )
    }
}

/// Asks an instance for its self-description.
pub fn ask_info(store: &mut wasmtime::Store<HostState>, instance: &wasmtime::Instance) -> (r:
    Result<Vec<u8>, String>)
    requires
        instance_store(*instance) == store_id(*old(store)),
    ensures
        same_store(*old(store), *final(store)),
        info_asked(*old(store), *instance, bytes_view(r), *final(store)),
{
    let info = match find_producer(instance, store, "info") {
        Ok(info) => info,
        Err(e) => {
            let text = error_text(&e);
            return Err(join("info export not found: ", text.as_str()));
        },
    };
    let ghost before = *old(store);
    let ghost state = *store;
    let outcome = call_producer(&info, store);
    let ghost came_back = outcome;
    let ghost left = *store;
    assert(producer_may_return(
        exported_producer(*instance, "info"@)->0,
        state,
        came_back,
        left,
    ));
    assert(info_called(before, *instance, came_back, left));
    let r = match outcome {
        Ok(pair) => {
            let answer = take_answer(store, instance, pair);
            assert(answer_taken(left, *instance, came_back->Ok_0, bytes_view(answer)));
            match answer {
                Ok(bytes) => Ok(bytes),
                Err(text) => Err(join("reading info from memory: ", text.as_str())),
            }
        },
        Err(e) => {
            let text = error_text(&e);
            Err(join("calling info failed: ", text.as_str()))
        },
    };
    assert(info_answered(left, *instance, came_back, bytes_view(r)));
    r
}

/// Whether a new instance of the block, made without a context, may give this
/// when it is asked for its self-description.
pub open spec fn info_of_new(block: WASMBlock, r: Result<Seq<u8>, Seq<char>>) -> bool {
    exists|
        made: wasmtime::Store<HostState>,
        instance: wasmtime::Instance,
        after: wasmtime::Store<HostState>,
    |
        freshly_made(block, HostState { context: None }, instance, made) && #[trigger] info_asked(
            made,
            instance,
            r,
            after,
        )
}

/// Whether this is the self-description that stands in for a block that cannot
/// give one: no instance of it could be made, or the instance was asked in vain.
pub open spec fn info_failed(block: WASMBlock, info: BlockInfoView) -> bool {
    ||| exists|text: Seq<char>| #[trigger]
        instance_complaint(block, HostState { context: None }, text) && info
            == BlockInfoView::unknown("failed to create instance: "@ + text)
    ||| exists|text: Seq<char>| #[trigger]
        info_of_new(block, Err(text)) && info == BlockInfoView::unknown(text)
}

impl WASMBlock {
    /// The bytes of the block's self-description, or what stands in for it. The
    /// block is asked without a context.
    pub fn info_bytes(&self) -> (r: Result<Vec<u8>, BlockInfo>)
        ensures
            match r {
                Ok(bytes) => info_of_new(*self, Ok(bytes@)),
                Err(info) => info_failed(*self, info@),
            },
    {
        let (mut store, instance) = match self.create_instance(HostState { context: None }) {
            Ok(made) => made,
            Err(text) => {
                let info = BlockInfo::unknown(join("failed to create instance: ", text.as_str()));
                assert(instance_complaint(*self, HostState { context: None }, text@));
                return Err(info);
            },
        };
        let ghost made = store;
        let answer = ask_info(&mut store, &instance);
        assert(info_asked(made, instance, bytes_view(answer), store));
        assert(info_of_new(*self, bytes_view(answer)));
        match answer {
            Ok(bytes) => Ok(bytes),
            Err(text) => {
                assert(info_of_new(*self, Err(text@)));
                Err(BlockInfo::unknown(text))
            },
        }
    }
}

} // verus!
