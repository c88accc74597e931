//! Handing bytes to a guest and taking them from it.
use vstd::prelude::*;

use crate::decimal::{numeral, signed_numeral, signed_text, unsigned_text};
use crate::text::join;
use crate::wasm::guest::{
    access_error_text, allocator_may_return, call_allocator, error_text, exported_allocator,
    exported_memory, find_allocator, find_memory, guest_error_text, instance_store,
    lookup_text, memory_bytes, overwritten, read_memory, same_memories, same_store, store_id,
    write_memory, HostState,
};

verus! {

/// The complaint about an access beyond the end of the memory.
pub open spec fn access_complaint(
    verb: Seq<char>,
    size: Seq<char>,
    offset: Seq<char>,
) -> Seq<char> {
    verb + size + " bytes at offset "@ + offset + ": "@ + "out of bounds memory access"@
}

/// What writing at a place that the guest allocated leads to, given the bytes
/// of the memory before and after.
pub open spec fn placed(
    before: Seq<u8>,
    after: Seq<u8>,
    ptr: i32,
    data: Seq<u8>,
    r: Result<(u32, u32), Seq<char>>,
) -> bool {
    let offset = ptr as usize;
    let size = data.len() as i32;
    if offset + data.len() <= before.len() {
        &&& r == Ok::<(u32, u32), Seq<char>>((ptr as u32, size as u32))
        &&& offset + data.len() <= isize::MAX
        &&& after == overwritten(before, offset as int, data)
    } else {
        &&& r == Err::<(u32, u32), Seq<char>>(
            access_complaint(
                "failed to write "@,
                signed_numeral(size as int),
                signed_numeral(ptr as int),
            ),
        )
        &&& after == before
    }
}

/// What writing leads to once the allocator has come back and left the store so.
pub open spec fn allocated(
    left: wasmtime::Store<HostState>,
    after: wasmtime::Store<HostState>,
    instance: wasmtime::Instance,
    data: Seq<u8>,
    outcome: Result<i32, wasmtime::Error>,
    r: Result<(u32, u32), Seq<char>>,
) -> bool {
    match outcome {
        Ok(ptr) => match exported_memory(instance, "memory"@) {
            Some(memory) => placed(
                memory_bytes(left, memory),
                memory_bytes(after, memory),
                ptr,
                data,
                r,
            ),
            None => {
                &&& r == Err::<(u32, u32), Seq<char>>("memory not found"@)
                &&& same_memories(left, after)
            },
        },
        Err(e) => {
            &&& r == Err::<(u32, u32), Seq<char>>("malloc failed: "@ + guest_error_text(e))
            &&& same_memories(left, after)
        },
    }
}

/// Whether an allocator that is asked for so many bytes may come back with the
/// outcome and leave the store so.
pub open spec fn asked_for(
    before: wasmtime::Store<HostState>,
    malloc: wasmtime::TypedFunc<i32, i32>,
    size: nat,
    outcome: Result<i32, wasmtime::Error>,
    left: wasmtime::Store<HostState>,
) -> bool {
    exists|state: wasmtime::Store<HostState>|
        same_memories(before, state) && #[trigger] allocator_may_return(
            malloc,
            state,
            size as i32,
            outcome,
            left,
        )
}

/// What handing bytes to a guest leads to: its `malloc` is asked for as many
/// bytes, and they are written where it says.
pub open spec fn handed(
    before: wasmtime::Store<HostState>,
    after: wasmtime::Store<HostState>,
    instance: wasmtime::Instance,
    data: Seq<u8>,
    r: Result<(u32, u32), Seq<char>>,
) -> bool {
    match exported_allocator(instance, "malloc"@) {
        Some(malloc) => exists|
            outcome: Result<i32, wasmtime::Error>,
            left: wasmtime::Store<HostState>,
        | #[trigger]
            asked_for(before, malloc, data.len(), outcome, left) && allocated(
                left,
                after,
                instance,
                data,
                outcome,
                r,
            ),
        None => {
            &&& same_memories(before, after)
            &&& r == Err::<(u32, u32), Seq<char>>(
                "malloc not found: "@ + lookup_text(instance, "malloc"@),
            )
        },
    }
}

/// What taking bytes from a guest gives.
pub open spec fn taken(
    store: wasmtime::Store<HostState>,
    instance: wasmtime::Instance,
    ptr: u32,
    length: u32,
) -> Result<Seq<u8>, Seq<char>> {
    match exported_memory(instance, "memory"@) {
        Some(memory) => {
            let bytes = memory_bytes(store, memory);
            if ptr as usize + length as usize <= bytes.len() {
                Ok(bytes.subrange(ptr as int, ptr + length))
            } else {
                Err(
                    access_complaint(
                        "failed to read "@,
                        numeral(length as nat),
                        numeral(ptr as nat),
                    ),
                )
            }
        },
        None => Err("memory not found"@),
    }
}

/// Puts together the complaint about an access beyond the end of the memory.
fn complain(
    verb: &str,
    size: String,
    offset: String,
    reason: &str,
) -> (r: String)
    requires
        reason@ == "out of bounds memory access"@,
    ensures
        r@ == access_complaint(verb@, size@, offset@),
{
    let a = join(verb, size.as_str());
    let b = join(a.as_str(), " bytes at offset ");
    let c = join(b.as_str(), offset.as_str());
    let d = join(c.as_str(), ": ");
    join(d.as_str(), reason)
}

/// A place or the text of a complaint.
pub open spec fn place_view(r: Result<(u32, u32), String>) -> Result<(u32, u32), Seq<char>> {
    match r {
        Ok(place) => Ok(place),
        Err(text) => Err(text@),
    }
}

/// Writes bytes where the allocator said, once it has come back.
fn place(
    store: &mut wasmtime::Store<HostState>,
    instance: &wasmtime::Instance,
    data: &[u8],
    outcome: Result<i32, wasmtime::Error>,
) -> (r: Result<(u32, u32), String>)
    requires
        instance_store(*instance) == store_id(*old(store)),
    ensures
        same_store(*old(store), *final(store)),
        allocated(*old(store), *final(store), *instance, data@, outcome, place_view(r)),
{
    let size: i32 = data.len() as i32;
    let ptr: i32 = match outcome {
        Ok(ptr) => ptr,
        Err(e) => {
            let text = error_text(&e);
            return Err(join("malloc failed: ", text.as_str()));
        },
    };
    let memory = match find_memory(instance, store, "memory") {
        Some(memory) => memory,
        None => return Err("memory not found".to_owned()),
    };
    let r = match write_memory(&memory, store, ptr as usize, data) {
        Ok(_) => Ok((ptr as u32, size as u32)),
        Err(e) => {
            let reason = access_error_text(&e);
            Err(complain("failed to write ", signed_text(size), signed_text(ptr), reason.as_str()))
        },
    };
    r
}

/// Writes bytes into the memory of a guest, at a place that its `malloc` gives.
pub fn write_to_memory(
    store: &mut wasmtime::Store<HostState>,
    instance: &wasmtime::Instance,
    data: &[u8],
) -> (r: Result<(u32, u32), String>)
    requires
        instance_store(*instance) == store_id(*old(store)),
    ensures
        same_store(*old(store), *final(store)),
        handed(*old(store), *final(store), *instance, data@, place_view(r)),
{
    let malloc = match find_allocator(instance, store, "malloc") {
        Ok(malloc) => malloc,
        Err(e) => {
            let text = error_text(&e);
            return Err(join("malloc not found: ", text.as_str()));
        },
    };
    let ghost state = *store;
    let outcome = call_allocator(&malloc, store, data.len() as i32);
    assert(asked_for(
        *old(store),
        exported_allocator(*instance, "malloc"@)->0,
        data@.len(),
        outcome,
        *store,
    ));
    place(store, instance, data, outcome)
}

/// Reads bytes from the memory of a guest.
pub fn read_from_memory(
    store: &mut wasmtime::Store<HostState>,
    instance: &wasmtime::Instance,
    ptr: u32,
    length: u32,
) -> (r: Result<Vec<u8>, String>)
    requires
        instance_store(*instance) == store_id(*old(store)),
    ensures
        same_memories(*old(store), *final(store)),
        taken(*old(store), *instance, ptr, length) == match r {
            Ok(bytes) => Ok::<_, Seq<char>>(bytes@),
            Err(text) => Err::<Seq<u8>, _>(text@),
        },
{
    let memory = match find_memory(instance, store, "memory") {
        Some(memory) => memory,
        None => return Err("memory not found".to_owned()),
    };
    if length as usize > isize::MAX as usize {
        return Err(
            complain(
                "failed to read ",
                unsigned_text(length as u64),
                unsigned_text(ptr as u64),
                "out of bounds memory access",
            ),
        );
    }
    match read_memory(&memory, store, ptr as usize, length as usize) {
        Ok(bytes) => Ok(bytes),
        Err(e) => {
            let reason = access_error_text(&e);
            Err(
                complain(
                    "failed to read ",
                    unsigned_text(length as u64),
                    unsigned_text(ptr as u64),
                    reason.as_str(),
                ),
            )
        },
    }
}

/// Bytes that were handed to a guest are read back at the place that came of
/// it, as long as their number fits in the 32 bits that carry it.
pub proof fn handed_bytes_are_taken_back(
    before: wasmtime::Store<HostState>,
    after: wasmtime::Store<HostState>,
    instance: wasmtime::Instance,
    data: Seq<u8>,
    ptr: u32,
    length: u32,
)
    requires
        handed(before, after, instance, data, Ok((ptr, length))),
        data.len() <= u32::MAX,
    ensures
        length == data.len(),
        taken(after, instance, ptr, length) == Ok::<Seq<u8>, Seq<char>>(data),
{
    let malloc = exported_allocator(instance, "malloc"@)->0;
    let (outcome, left) = choose|
        outcome: Result<i32, wasmtime::Error>,
        left: wasmtime::Store<HostState>,
    | #[trigger]
        asked_for(before, malloc, data.len(), outcome, left) && allocated(
            left,
            after,
            instance,
            data,
            outcome,
            Ok((ptr, length)),
        );
    let p = outcome->Ok_0;
    let memory = exported_memory(instance, "memory"@)->0;
    let n = data.len() as u32;
    assert((n as i32) as u32 == n) by (bit_vector);
    assert(p < 0 ==> ((p as usize) as isize) < 0) by (bit_vector);
    assert(p >= 0);
    assert(memory_bytes(after, memory).subrange(ptr as int, ptr + length) =~= data);
}

} // verus!
