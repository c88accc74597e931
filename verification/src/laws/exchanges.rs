//! What the operations that change a value do to it.
use vstd::prelude::*;

use crate::block::BlockInfo;
use crate::laws::host::messages_are_taken_from_their_place;
use crate::laws::memory::bytes_are_taken_from_their_place;
use crate::meta::Meta;
use crate::wasm::format::WasmBlockInfo;
use crate::wasm::guest::{
    exported_memory, instance_store, memory_bytes, same_memories, same_store, store_id, HostState,
};
use crate::wasm::host::{
    caller_bytes, caller_memory, caller_state, hand_back, handed_back, same_caller,
    sent_bytes, take_message, Refusal,
};
use crate::wasm::info::InfoCache;
use crate::wasm::loader::{ask_info, bytes_view, info_asked};
use crate::wasm::memory::{handed, place_view, read_from_memory, write_to_memory};

verus! {

/// A key that is given a value has it from then on, and no other key changes.
pub proof fn keys_take_their_value(meta: &mut Meta, key: String, value: String, other: Seq<char>)
    requires
        call_ensures(Meta::insert, (meta, key, value), ()),
    ensures
        final(meta)@.contains_key(key@),
        final(meta)@[key@] == value@,
        other != key@ ==> (final(meta)@.contains_key(other) <==> old(meta)@.contains_key(other)),
        other != key@ && old(meta)@.contains_key(other) ==> final(meta)@[other]
            == old(meta)@[other],
{
}

/// A self-description that was read is given and kept; one that could not be read
/// stands in, and what is kept stays.
pub proof fn read_descriptions_are_kept(
    cache: &mut InfoCache,
    read: Result<WasmBlockInfo, String>,
    r: BlockInfo,
)
    requires
        call_ensures(InfoCache::record, (cache, read), r),
    ensures
        read is Ok ==> r@ == read->Ok_0.meaning() && final(cache)@ == Some(r@),
        read is Err ==> r@.name == "unknown"@ && r@.summary == "parsing info: "@ + read->Err_0@
            && final(cache)@ == old(cache)@,
{
}

/// The message that a guest sends is taken from its place in the memory, and the
/// memory stays.
pub proof fn messages_are_taken_whole(
    caller: &mut wasmtime::Caller<'_, HostState>,
    ptr: i32,
    len: i32,
    r: Result<Vec<u8>, Refusal>,
)
    requires
        call_ensures(take_message, (caller, ptr, len), r),
    ensures
        crate::wasm::host::same_memories(*old(caller), *final(caller)),
        caller_state(*final(caller)) == caller_state(*old(caller)),
        r is Ok ==> r->Ok_0@.len() == len && caller_memory(*old(caller), "memory"@) is Some && (
        forall|i: int|
            0 <= i < len ==> #[trigger] r->Ok_0@[i] == caller_bytes(
                *old(caller),
                caller_memory(*old(caller), "memory"@)->0,
            )[ptr as usize + i]),
        r is Err ==> sent_bytes(*old(caller), ptr, len) is Err && r->Err_0@ == sent_bytes(
            *old(caller),
            ptr,
            len,
        )->Err_0,
{
    messages_are_taken_from_their_place(*old(caller), ptr, len);
}

/// The bytes that a guest is handed back are just these.
pub proof fn bytes_are_handed_back(
    caller: &mut wasmtime::Caller<'_, HostState>,
    data: &[u8],
    r: i64,
)
    requires
        call_ensures(hand_back, (caller, data), r),
    ensures
        same_caller(*old(caller), *final(caller)),
        handed_back(*old(caller), *final(caller), data@, r),
{
}

/// The bytes that a guest is handed are just these.
pub proof fn bytes_are_handed_over(
    store: &mut wasmtime::Store<HostState>,
    instance: &wasmtime::Instance,
    data: &[u8],
    r: Result<(u32, u32), String>,
)
    requires
        instance_store(*instance) == store_id(*old(store)),
        call_ensures(write_to_memory, (store, instance, data), r),
    ensures
        same_store(*old(store), *final(store)),
        handed(*old(store), *final(store), *instance, data@, place_view(r)),
        r is Ok ==> place_view(r) == Ok::<(u32, u32), Seq<char>>(r->Ok_0),
        r is Err ==> place_view(r) == Err::<(u32, u32), Seq<char>>(r->Err_0@),
{
}

/// The bytes that are taken from a guest are those at the place, in its memory,
/// and the memory stays.
pub proof fn bytes_are_taken_whole(
    store: &mut wasmtime::Store<HostState>,
    instance: &wasmtime::Instance,
    ptr: u32,
    length: u32,
    r: Result<Vec<u8>, String>,
)
    requires
        instance_store(*instance) == store_id(*old(store)),
        call_ensures(read_from_memory, (store, instance, ptr, length), r),
    ensures
        same_memories(*old(store), *final(store)),
        r is Ok <==> exported_memory(*instance, "memory"@) is Some && ptr + length <= memory_bytes(
            *old(store),
            exported_memory(*instance, "memory"@)->0,
        ).len(),
        r is Ok ==> r->Ok_0@.len() == length && (forall|i: int|
            0 <= i < length ==> #[trigger] r->Ok_0@[i] == memory_bytes(
                *old(store),
                exported_memory(*instance, "memory"@)->0,
            )[ptr + i]),
{
    bytes_are_taken_from_their_place(*old(store), *instance, ptr, length);
}

/// An instance is asked for its self-description.
pub proof fn instances_are_asked(
    store: &mut wasmtime::Store<HostState>,
    instance: &wasmtime::Instance,
    r: Result<Vec<u8>, String>,
)
    requires
        instance_store(*instance) == store_id(*old(store)),
        call_ensures(ask_info, (store, instance), r),
    ensures
        same_store(*old(store), *final(store)),
        info_asked(*old(store), *instance, bytes_view(r), *final(store)),
{
}

} // verus!
