//! A pointer and a length in one `i64`, the form in which guest and host hand
//! each other bytes.
use vstd::prelude::*;

verus! {

/// The number whose high 32 bits are the pointer and whose low 32 bits are the
/// length.
pub open spec fn packed(ptr: i32, len: i32) -> int {
    ptr * 0x1_0000_0000 + (len as u32)
}

/// Packs a pointer and a length.
pub fn pack_i64(ptr: i32, len: i32) -> (r: i64)
    ensures
        r == packed(ptr, len),
{
    proof {
        assert((((ptr as i64) << 32) | ((len as i64) & 0xFFFF_FFFF)) == ptr * 0x1_0000_0000 + (
        len as u32)) by (bit_vector);
    }
    ((ptr as i64) << 32) | ((len as i64) & 0xFFFF_FFFF)
}

/// Unpacks a pointer and a length: every number is the packing of one pair.
pub fn unpack_i64(packed_pair: i64) -> (r: (i32, i32))
    ensures
        packed_pair == packed(r.0, r.1),
{
    proof {
        assert(packed_pair == ((packed_pair >> 32) as i32) * 0x1_0000_0000 + (((packed_pair
            & 0xFFFF_FFFF) as i32) as u32)) by (bit_vector);
    }
    let ptr: i32 = (packed_pair >> 32) as i32;
    let len: i32 = (packed_pair & 0xFFFF_FFFF) as i32;
    (ptr, len)
}

/// Two pairs that are packed into the same number are the same pair: what one
/// side packs is what the other unpacks.
pub proof fn packing_is_injective(ptr1: i32, len1: i32, ptr2: i32, len2: i32)
    requires
        packed(ptr1, len1) == packed(ptr2, len2),
    ensures
        ptr1 == ptr2,
        len1 == len2,
{
    assert(len1 as u32 == len2 as u32);
    assert(len1 as u32 == len2 as u32 ==> len1 == len2) by (bit_vector);
}

} // verus!
