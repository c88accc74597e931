//! The parts of `wasmtime` that the runtime works with.
//!
//! A guest decides what its functions return and what they do to its memory.
//! Of a call nothing more is claimed than that its outcome is one that the
//! guest may give, nor that it comes back at all.
use std::sync::Arc;
use vstd::prelude::*;

use crate::context::Context;

verus! {

/// `wasmtime::Error`, why an operation on a guest failed.
#[verifier::external_type_specification]
#[verifier::external_body]
pub struct ExGuestError(wasmtime::Error);

/// `wasmtime::MemoryAccessError`, an access beyond the end of a memory.
#[verifier::external_type_specification]
#[verifier::external_body]
pub struct ExMemoryAccessError(wasmtime::MemoryAccessError);

/// `wasmtime::Engine`, what modules are compiled with.
#[verifier::external_type_specification]
#[verifier::external_body]
pub struct ExEngine(wasmtime::Engine);

/// `wasmtime::Module`, a compiled guest.
#[verifier::external_type_specification]
#[verifier::external_body]
pub struct ExModule(wasmtime::Module);

/// `wasmtime::Linker`, the host functions that guests can import.
#[verifier::external_type_specification]
#[verifier::external_body]
#[verifier::reject_recursive_types(T)]
pub struct ExLinker<T>(wasmtime::Linker<T>);

/// `wasmtime::Store`, what holds the state of instances.
#[verifier::external_type_specification]
#[verifier::external_body]
#[verifier::reject_recursive_types(T)]
pub struct ExStore<T: 'static>(wasmtime::Store<T>);

/// `wasmtime::Instance`, a guest that is ready to run.
#[verifier::external_type_specification]
#[verifier::external_body]
pub struct ExInstance(wasmtime::Instance);

/// `wasmtime::Memory`, a handle to the linear memory of a guest.
#[verifier::external_type_specification]
#[verifier::external_body]
pub struct ExMemory(wasmtime::Memory);

/// `wasmtime::TypedFunc`, a handle to a function of a guest.
#[verifier::external_type_specification]
#[verifier::external_body]
#[verifier::reject_recursive_types(Params)]
#[verifier::reject_recursive_types(Results)]
pub struct ExTypedFunc<Params, Results>(wasmtime::TypedFunc<Params, Results>);

/// The state that host functions find: the context of the block that runs.
pub struct HostState {
    pub context: Option<Arc<dyn Context>>,
}

/// What tells a store from any other.
pub uninterp spec fn store_id(store: wasmtime::Store<HostState>) -> int;

/// The engine that a store was made with.
pub uninterp spec fn store_engine(store: wasmtime::Store<HostState>) -> wasmtime::Engine;

/// The host state that a store was made with.
pub uninterp spec fn store_made_with(store: wasmtime::Store<HostState>) -> HostState;

/// The store that owns an instance.
pub uninterp spec fn instance_store(instance: wasmtime::Instance) -> int;

/// The module that an instance is of.
pub uninterp spec fn instance_module(instance: wasmtime::Instance) -> wasmtime::Module;

/// The store that owns a memory.
pub uninterp spec fn memory_store(memory: wasmtime::Memory) -> int;

/// The bytes of a memory.
pub uninterp spec fn memory_bytes(
    store: wasmtime::Store<HostState>,
    memory: wasmtime::Memory,
) -> Seq<u8>;

/// What `Display` writes of a `wasmtime::Error`.
pub uninterp spec fn guest_error_text(error: wasmtime::Error) -> Seq<char>;

/// The bytes that a module was compiled from.
pub uninterp spec fn module_source(module: wasmtime::Module) -> Seq<u8>;

/// The engine that a module was compiled with.
pub uninterp spec fn module_engine(module: wasmtime::Module) -> wasmtime::Engine;

/// The names of what a module exports.
pub uninterp spec fn module_exports(module: wasmtime::Module) -> Seq<Seq<char>>;

/// The engine that a linker belongs to.
pub uninterp spec fn linker_engine(linker: wasmtime::Linker<HostState>) -> wasmtime::Engine;

/// Whether a linker holds host functions only, and nothing that a store owns.
pub uninterp spec fn linker_host_only(linker: wasmtime::Linker<HostState>) -> bool;

/// Whether a store holds nothing yet but the host state.
pub uninterp spec fn store_is_new(store: wasmtime::Store<HostState>) -> bool;

/// Whether a module has a function that runs while an instance of it is made.
pub uninterp spec fn runs_at_start(module: wasmtime::Module) -> bool;

/// The bytes that a module gives the memory that it exports under a name to
/// begin with.
pub uninterp spec fn initial_bytes(module: wasmtime::Module, name: Seq<char>) -> Seq<u8>;

/// Whether a linker may make this instance of the module in the store, and leave
/// the store so.
pub uninterp spec fn instantiate_may_give(
    linker: wasmtime::Linker<HostState>,
    before: wasmtime::Store<HostState>,
    module: wasmtime::Module,
    instance: wasmtime::Instance,
    after: wasmtime::Store<HostState>,
) -> bool;

/// Whether an engine may refuse to compile the bytes, with this error.
pub uninterp spec fn compile_may_fail(
    engine: wasmtime::Engine,
    wasm_bytes: Seq<u8>,
    error: wasmtime::Error,
) -> bool;

/// Whether a linker may fail to make an instance of the module in the store,
/// with this error.
pub uninterp spec fn instantiate_may_fail(
    linker: wasmtime::Linker<HostState>,
    before: wasmtime::Store<HostState>,
    module: wasmtime::Module,
    error: wasmtime::Error,
) -> bool;

/// The memory that an instance exports under a name.
pub uninterp spec fn exported_memory(
    instance: wasmtime::Instance,
    name: Seq<char>,
) -> Option<wasmtime::Memory>;

/// Whether an instance exports a function under a name, of whatever type.
pub uninterp spec fn exports_function(instance: wasmtime::Instance, name: Seq<char>) -> bool;

/// The allocator that an instance exports under a name.
pub uninterp spec fn exported_allocator(
    instance: wasmtime::Instance,
    name: Seq<char>,
) -> Option<wasmtime::TypedFunc<i32, i32>>;

/// The function without parameters that an instance exports under a name.
pub uninterp spec fn exported_producer(
    instance: wasmtime::Instance,
    name: Seq<char>,
) -> Option<wasmtime::TypedFunc<(), i64>>;

/// The function of a pointer and a length that an instance exports under a name.
pub uninterp spec fn exported_handler(
    instance: wasmtime::Instance,
    name: Seq<char>,
) -> Option<wasmtime::TypedFunc<(i32, i32), i64>>;

/// The store that owns an allocator.
pub uninterp spec fn allocator_store(func: wasmtime::TypedFunc<i32, i32>) -> int;

/// The store that owns a function without parameters.
pub uninterp spec fn producer_store(func: wasmtime::TypedFunc<(), i64>) -> int;

/// The store that owns a function of a pointer and a length.
pub uninterp spec fn handler_store(func: wasmtime::TypedFunc<(i32, i32), i64>) -> int;

/// Whether an allocator may come back with the outcome and leave its store so.
pub uninterp spec fn allocator_may_return(
    func: wasmtime::TypedFunc<i32, i32>,
    before: wasmtime::Store<HostState>,
    size: i32,
    outcome: Result<i32, wasmtime::Error>,
    after: wasmtime::Store<HostState>,
) -> bool;

/// Whether a function without parameters may come back with the outcome and
/// leave its store so.
pub uninterp spec fn producer_may_return(
    func: wasmtime::TypedFunc<(), i64>,
    before: wasmtime::Store<HostState>,
    outcome: Result<i64, wasmtime::Error>,
    after: wasmtime::Store<HostState>,
) -> bool;

/// Whether a function of a pointer and a length may come back with the outcome
/// and leave its store so.
pub uninterp spec fn handler_may_return(
    func: wasmtime::TypedFunc<(i32, i32), i64>,
    before: wasmtime::Store<HostState>,
    args: (i32, i32),
    outcome: Result<i64, wasmtime::Error>,
    after: wasmtime::Store<HostState>,
) -> bool;

/// Whether two states are of the same store, the second no newer than the first:
/// what a store holds it keeps.
pub open spec fn same_store(
    a: wasmtime::Store<HostState>,
    b: wasmtime::Store<HostState>,
) -> bool {
    &&& store_id(a) == store_id(b)
    &&& store_engine(a) == store_engine(b)
    &&& store_made_with(a) == store_made_with(b)
    &&& store_is_new(b) ==> store_is_new(a)
}

/// Whether two states are of the same store and no memory differs.
pub open spec fn same_memories(
    a: wasmtime::Store<HostState>,
    b: wasmtime::Store<HostState>,
) -> bool {
    &&& same_store(a, b)
    &&& forall|m: wasmtime::Memory| #[trigger] memory_bytes(b, m) == memory_bytes(a, m)
}

/// The text with which the look-up of a function fails: there is none of that
/// name, or it is of another type.
pub open spec fn lookup_text(instance: wasmtime::Instance, name: Seq<char>) -> Seq<char> {
    if exports_function(instance, name) {
        "failed to convert function `"@ + name + "` to given type"@
    } else {
        "failed to find function export `"@ + name + "`"@
    }
}

/// A row of bytes with others written over it from an offset on.
pub open spec fn overwritten(bytes: Seq<u8>, offset: int, data: Seq<u8>) -> Seq<u8> {
    bytes.take(offset) + data + bytes.skip(offset + data.len())
}

/// Calls `to_string` of a `wasmtime::Error`: the text is determined by the
/// error.
#[verifier::external_body]
pub(crate) fn error_text(error: &wasmtime::Error) -> (r: String)
    ensures
        r@ == guest_error_text(*error),
{
    error.to_string()
}

/// Calls `to_string` of a `wasmtime::MemoryAccessError`, whose text is fixed.
#[verifier::external_body]
pub(crate) fn access_error_text(error: &wasmtime::MemoryAccessError) -> (r: String)
    ensures
        r@ == "out of bounds memory access"@,
{
    error.to_string()
}

/// Calls `Instance::get_memory`. The memory is the one that the instance
/// exports under the name and belongs to the same store; no memory changes. Its
/// bytes can be had as a slice, so there are at most `isize::MAX`.
#[verifier::external_body]
pub(crate) fn find_memory(
    instance: &wasmtime::Instance,
    store: &mut wasmtime::Store<HostState>,
    name: &str,
) -> (r: Option<wasmtime::Memory>)
    requires
        instance_store(*instance) == store_id(*old(store)),
    ensures
        same_memories(*old(store), *final(store)),
        r == exported_memory(*instance, name@),
        r matches Some(memory) ==> memory_store(memory) == store_id(*old(store)),
        r matches Some(memory) ==> memory_bytes(*final(store), memory).len() <= isize::MAX,
{
    instance.get_memory(store, name)
}

/// Calls `Instance::get_typed_func` for an allocator. It gives the function
/// that the instance exports under the name and that is of this type, or says
/// whether there is none or one of another type; no memory changes.
#[verifier::external_body]
pub(crate) fn find_allocator(
    instance: &wasmtime::Instance,
    store: &mut wasmtime::Store<HostState>,
    name: &str,
) -> (r: Result<wasmtime::TypedFunc<i32, i32>, wasmtime::Error>)
    requires
        instance_store(*instance) == store_id(*old(store)),
    ensures
        same_memories(*old(store), *final(store)),
        match r {
            Ok(func) => exported_allocator(*instance, name@) == Some(func) && allocator_store(func)
                == store_id(*old(store)) && exports_function(*instance, name@),
            Err(e) => exported_allocator(*instance, name@) is None && guest_error_text(e)
                == lookup_text(*instance, name@),
        },
{
    instance.get_typed_func::<i32, i32>(store, name)
}

/// Calls `Instance::get_typed_func` for a function without parameters, as
/// `find_allocator` does.
#[verifier::external_body]
pub(crate) fn find_producer(
    instance: &wasmtime::Instance,
    store: &mut wasmtime::Store<HostState>,
    name: &str,
) -> (r: Result<wasmtime::TypedFunc<(), i64>, wasmtime::Error>)
    requires
        instance_store(*instance) == store_id(*old(store)),
    ensures
        same_memories(*old(store), *final(store)),
        match r {
            Ok(func) => exported_producer(*instance, name@) == Some(func) && producer_store(func)
                == store_id(*old(store)) && exports_function(*instance, name@),
            Err(e) => exported_producer(*instance, name@) is None && guest_error_text(e)
                == lookup_text(*instance, name@),
        },
{
    instance.get_typed_func::<(), i64>(store, name)
}

/// Calls `Instance::get_typed_func` for a function of a pointer and a length,
/// as `find_allocator` does.
#[verifier::external_body]
pub(crate) fn find_handler(
    instance: &wasmtime::Instance,
    store: &mut wasmtime::Store<HostState>,
    name: &str,
) -> (r: Result<wasmtime::TypedFunc<(i32, i32), i64>, wasmtime::Error>)
    requires
        instance_store(*instance) == store_id(*old(store)),
    ensures
        same_memories(*old(store), *final(store)),
        match r {
            Ok(func) => exported_handler(*instance, name@) == Some(func) && handler_store(func)
                == store_id(*old(store)) && exports_function(*instance, name@),
            Err(e) => exported_handler(*instance, name@) is None && guest_error_text(e)
                == lookup_text(*instance, name@),
        },
{
    instance.get_typed_func::<(i32, i32), i64>(store, name)
}

/// Calls `TypedFunc::call` of an allocator: the outcome, and what the guest does
/// to its memory, are up to the guest.
#[verifier::external_body]
pub(crate) fn call_allocator(
    func: &wasmtime::TypedFunc<i32, i32>,
    store: &mut wasmtime::Store<HostState>,
    size: i32,
) -> (r: Result<i32, wasmtime::Error>)
    requires
        allocator_store(*func) == store_id(*old(store)),
    ensures
        same_store(*old(store), *final(store)),
        allocator_may_return(*func, *old(store), size, r, *final(store)),
{
    func.call(store, size)
}

/// Calls `TypedFunc::call` of a function without parameters: the outcome, and
/// what the guest does to its memory, are up to the guest.
#[verifier::external_body]
pub(crate) fn call_producer(
    func: &wasmtime::TypedFunc<(), i64>,
    store: &mut wasmtime::Store<HostState>,
) -> (r: Result<i64, wasmtime::Error>)
    requires
        producer_store(*func) == store_id(*old(store)),
    ensures
        same_store(*old(store), *final(store)),
        producer_may_return(*func, *old(store), r, *final(store)),
{
    func.call(store, ())
}

/// Calls `TypedFunc::call` of a function of a pointer and a length: the outcome,
/// and what the guest does to its memory, are up to the guest.
#[verifier::external_body]
pub(crate) fn call_handler(
    func: &wasmtime::TypedFunc<(i32, i32), i64>,
    store: &mut wasmtime::Store<HostState>,
    ptr: i32,
    len: i32,
) -> (r: Result<i64, wasmtime::Error>)
    requires
        handler_store(*func) == store_id(*old(store)),
    ensures
        same_store(*old(store), *final(store)),
        handler_may_return(*func, *old(store), (ptr, len), r, *final(store)),
{
    func.call(store, (ptr, len))
}

/// Calls `Memory::read`: it gives the bytes at the offset exactly if they all
/// lie in the memory.
#[verifier::external_body]
pub(crate) fn read_memory(
    memory: &wasmtime::Memory,
    store: &wasmtime::Store<HostState>,
    offset: usize,
    length: usize,
) -> (r: Result<Vec<u8>, wasmtime::MemoryAccessError>)
    requires
        memory_store(*memory) == store_id(*store),
        length <= isize::MAX,
    ensures
        r is Ok <==> offset + length <= memory_bytes(*store, *memory).len(),
        r matches Ok(bytes) ==> bytes@ == memory_bytes(*store, *memory).subrange(
            offset as int,
            offset + length,
        ),
{
    let mut buffer = vec![0u8; length];
    memory.read(store, offset, &mut buffer)?;
    Ok(buffer)
}

/// Calls `Memory::write`: it puts the bytes at the offset exactly if they all
/// fit into the memory, whose size is at most `isize::MAX`, and changes nothing
/// otherwise.
#[verifier::external_body]
pub(crate) fn write_memory(
    memory: &wasmtime::Memory,
    store: &mut wasmtime::Store<HostState>,
    offset: usize,
    data: &[u8],
) -> (r: Result<(), wasmtime::MemoryAccessError>)
    requires
        memory_store(*memory) == store_id(*old(store)),
    ensures
        same_store(*old(store), *final(store)),
        r is Ok <==> offset + data@.len() <= memory_bytes(*old(store), *memory).len(),
        r is Ok ==> offset + data@.len() <= isize::MAX,
        memory_bytes(*final(store), *memory) == if r is Ok {
            overwritten(memory_bytes(*old(store), *memory), offset as int, data@)
        } else {
            memory_bytes(*old(store), *memory)
        },
{
    memory.write(store, offset, data)
}

/// Calls `Engine::default`. Nothing is claimed of the engine, nor that there is
/// one for every machine: where `wasmtime` cannot run, the call panics.
#[verifier::external_body]
pub(crate) fn new_engine() -> (r: wasmtime::Engine) {
    wasmtime::Engine::default()
}

/// Calls `Linker::new`: the linker belongs to the engine and is empty.
#[verifier::external_body]
pub(crate) fn new_linker(engine: &wasmtime::Engine) -> (r: wasmtime::Linker<HostState>)
    ensures
        linker_engine(r) == *engine,
        linker_host_only(r),
{
    wasmtime::Linker::new(engine)
}

/// Calls `Linker::engine`.
#[verifier::external_body]
pub(crate) fn engine_of(linker: &wasmtime::Linker<HostState>) -> (r: wasmtime::Engine)
    ensures
        r == linker_engine(*linker),
{
    linker.engine().clone()
}

/// Calls `Module::new`: a module is compiled from the bytes with the engine.
/// Which bytes compile is left unsaid.
#[verifier::external_body]
pub(crate) fn compile(engine: &wasmtime::Engine, wasm_bytes: &[u8]) -> (r: Result<
    wasmtime::Module,
    wasmtime::Error,
>)
    ensures
        match r {
            Ok(module) => module_source(module) == wasm_bytes@ && module_engine(module) == *engine,
            Err(e) => compile_may_fail(*engine, wasm_bytes@, e),
        },
{
    wasmtime::Module::new(engine, wasm_bytes)
}

/// Calls `Module::exports` and takes the name of each export.
#[verifier::external_body]
pub(crate) fn export_names(module: &wasmtime::Module) -> (r: Vec<String>)
    ensures
        r@.map_values(|name: String| name@) == module_exports(*module),
{
    module.exports().map(|export| export.name().to_string()).collect()
}

/// Calls `Store::new`: the store is of the engine, holds the host state, and is
/// new.
#[verifier::external_body]
pub(crate) fn new_store(engine: &wasmtime::Engine, state: HostState) -> (r: wasmtime::Store<
    HostState,
>)
    ensures
        store_engine(r) == *engine,
        store_made_with(r) == state,
        store_is_new(r),
{
    wasmtime::Store::new(engine, state)
}

/// Calls `Linker::instantiate`: the instance is of the module, belongs to the
/// store, which is not new any more, and is one that the linker may make of it.
/// A memory begins with the bytes that the module gives it, unless a start
/// function has run: the linker has no memory of its own to offer. Whether the
/// module's imports are met and its start function comes back is left unsaid.
#[verifier::external_body]
pub(crate) fn instantiate(
    linker: &wasmtime::Linker<HostState>,
    store: &mut wasmtime::Store<HostState>,
    module: &wasmtime::Module,
) -> (r: Result<wasmtime::Instance, wasmtime::Error>)
    requires
        linker_host_only(*linker),
        linker_engine(*linker) == store_engine(*old(store)),
        module_engine(*module) == store_engine(*old(store)),
    ensures
        same_store(*old(store), *final(store)),
        match r {
            Ok(instance) => instance_store(instance) == store_id(*old(store)) && instance_module(
                instance,
            ) == *module && instantiate_may_give(
                *linker,
                *old(store),
                *module,
                instance,
                *final(store),
            ),
            Err(e) => instantiate_may_fail(*linker, *old(store), *module, e),
        },
        r is Ok ==> !store_is_new(*final(store)),
        r matches Ok(instance) ==> !runs_at_start(*module) ==> forall|name: Seq<char>|
            (#[trigger] exported_memory(instance, name)) matches Some(memory) ==> memory_bytes(
                *final(store),
                memory,
            ) == initial_bytes(*module, name),
{
    linker.instantiate(store, module)
}

} // verus!
