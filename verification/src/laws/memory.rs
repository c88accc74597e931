//! Handing bytes to a guest and taking them from it.
use vstd::prelude::*;

use crate::decimal::{numeral, signed_numeral};
use crate::wasm::guest::{
    allocator_may_return, exported_allocator, exported_memory, exports_function, guest_error_text,
    lookup_text, memory_bytes, same_memories, HostState,
};
use crate::wasm::memory::{allocated, asked_for, handed, taken};

verus! {

/// Bytes are taken from their place in the memory, all of them, exactly if they
/// lie in it. A complaint says how many were to be taken, and from where.
pub proof fn bytes_are_taken_from_their_place(
    store: wasmtime::Store<HostState>,
    instance: wasmtime::Instance,
    ptr: u32,
    length: u32,
)
    ensures
        exported_memory(instance, "memory"@) is None ==> taken(store, instance, ptr, length)
            == Err::<Seq<u8>, Seq<char>>("memory not found"@),
        exported_memory(instance, "memory"@) matches Some(memory) ==> {
            let bytes = memory_bytes(store, memory);
            &&& ptr + length <= bytes.len() ==> (taken(store, instance, ptr, length) matches Ok(got)
                && got.len() == length && forall|i: int|
                0 <= i < length ==> #[trigger] got[i] == bytes[ptr + i])
            &&& ptr + length > bytes.len() ==> taken(store, instance, ptr, length) == Err::<
                Seq<u8>,
                Seq<char>,
            >(
                "failed to read "@ + numeral(length as nat) + " bytes at offset "@ + numeral(
                    ptr as nat,
                ) + ": out of bounds memory access"@,
            )
        },
{
    reveal_strlit(": out of bounds memory access");
    reveal_strlit(": ");
    reveal_strlit("out of bounds memory access");
    assert(": out of bounds memory access"@ =~= ": "@ + "out of bounds memory access"@);
    let head = "failed to read "@ + numeral(length as nat) + " bytes at offset "@ + numeral(
        ptr as nat,
    );
    assert(head + ": "@ + "out of bounds memory access"@ =~= head
        + ": out of bounds memory access"@);
}

/// Bytes are handed over by asking the guest's `malloc` for room for all of them.
/// Where it gives a place and they fit there, they stand at it, the rest of the
/// memory is as the guest left it, and the place and their number come back.
/// Otherwise the complaint says what was wrong.
pub proof fn bytes_are_put_where_the_guest_says(
    before: wasmtime::Store<HostState>,
    after: wasmtime::Store<HostState>,
    instance: wasmtime::Instance,
    data: Seq<u8>,
    r: Result<(u32, u32), Seq<char>>,
)
    requires
        handed(before, after, instance, data, r),
    ensures
        exported_allocator(instance, "malloc"@) is None ==> r is Err && r->Err_0
            == "malloc not found: "@ + lookup_text(instance, "malloc"@) && same_memories(
            before,
            after,
        ),
        exported_allocator(instance, "malloc"@) is Some ==> exists|
            state: wasmtime::Store<HostState>,
            outcome: Result<i32, wasmtime::Error>,
            left: wasmtime::Store<HostState>,
        |
            {
                &&& #[trigger] allocator_may_return(
                    exported_allocator(instance, "malloc"@)->0,
                    state,
                    data.len() as i32,
                    outcome,
                    left,
                )
                &&& same_memories(before, state)
                &&& outcome is Err ==> r is Err && r->Err_0 == "malloc failed: "@
                    + guest_error_text(outcome->Err_0)
                &&& outcome is Ok && exported_memory(instance, "memory"@) is None ==> r is Err
                    && r->Err_0 == "memory not found"@
                &&& outcome is Ok && exported_memory(instance, "memory"@) is Some ==> was_written(
                    memory_bytes(left, exported_memory(instance, "memory"@)->0),
                    memory_bytes(after, exported_memory(instance, "memory"@)->0),
                    outcome->Ok_0,
                    data,
                    r,
                )
            },
{
    reveal_strlit(": out of bounds memory access");
    reveal_strlit(": ");
    reveal_strlit("out of bounds memory access");
    assert(": out of bounds memory access"@ =~= ": "@ + "out of bounds memory access"@);
    if exported_allocator(instance, "malloc"@) is Some {
        let malloc = exported_allocator(instance, "malloc"@)->0;
        let (outcome, left) = choose|
            outcome: Result<i32, wasmtime::Error>,
            left: wasmtime::Store<HostState>,
        | #[trigger]
            asked_for(before, malloc, data.len(), outcome, left) && allocated(
                left,
                after,
                instance,
                data,
                outcome,
                r,
            );
        let state = choose|state: wasmtime::Store<HostState>|
            same_memories(before, state) && #[trigger] allocator_may_return(
                malloc,
                state,
                data.len() as i32,
                outcome,
                left,
            );
        assert(allocator_may_return(malloc, state, data.len() as i32, outcome, left));
        if outcome is Ok && exported_memory(instance, "memory"@) is Some {
            let head = "failed to write "@ + signed_numeral((data.len() as i32) as int)
                + " bytes at offset "@ + signed_numeral(outcome->Ok_0 as int);
            assert(head + ": "@ + "out of bounds memory access"@ =~= head
                + ": out of bounds memory access"@);
        }
    }
}

/// Whether bytes were written at a place in a memory, if they fit there, and
/// nothing else changed; what comes back is the place and their number, or a
/// complaint with both.
pub open spec fn was_written(
    before: Seq<u8>,
    after: Seq<u8>,
    ptr: i32,
    data: Seq<u8>,
    r: Result<(u32, u32), Seq<char>>,
) -> bool {
    let offset = ptr as usize as int;
    let size = data.len() as i32;
    &&& after.len() == before.len()
    &&& if offset + data.len() <= before.len() {
        &&& r == Ok::<(u32, u32), Seq<char>>((ptr as u32, size as u32))
        &&& forall|i: int|
            0 <= i < before.len() ==> #[trigger] after[i] == if offset <= i < offset + data.len() {
                data[i - offset]
            } else {
                before[i]
            }
    } else {
        &&& after == before
        &&& r == Err::<(u32, u32), Seq<char>>(
            "failed to write "@ + signed_numeral(size as int) + " bytes at offset "@
                + signed_numeral(ptr as int) + ": out of bounds memory access"@,
        )
    }
}

/// A function that is looked up in vain is missing, or is of another type.
pub proof fn lookups_fail_for_one_of_two_reasons(instance: wasmtime::Instance, name: Seq<char>)
    ensures
        !exports_function(instance, name) ==> lookup_text(instance, name)
            == "failed to find function export `"@ + name + "`"@,
        exports_function(instance, name) ==> lookup_text(instance, name)
            == "failed to convert function `"@ + name + "` to given type"@,
{
}

} // verus!
