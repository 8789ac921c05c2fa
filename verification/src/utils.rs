//! Constructors and accessors for tagged symbol words.
//!
//! The constructors tag a raw payload with the appropriate header. The
//! caller guarantees that the payload fits in the 48-bit payload mask;
//! high bits beyond the header OR into it and are effectively lost, which
//! is documented behaviour, not an error path.
use vstd::prelude::*;

use crate::constants::{
    LOW32_MASK, PAYLOAD_MASK, VALUE_T_PTR_OBJ, VALUE_T_PTR_STR, VALUE_T_SYM_OBJ,
};

verus! {

pub open spec fn spec_truncate_symbol(symbol: u64) -> u32 {
    (symbol & LOW32_MASK) as u32
}

/// Extract the low 32 bits of a pointer-tagged symbol for fast relative
/// addressing into a contiguous backing store.
pub fn truncate_symbol(symbol: u64) -> (r: u32)
    ensures
        r == spec_truncate_symbol(symbol),
{
    (symbol & LOW32_MASK) as u32
}

pub open spec fn spec_create_value_symbol(raw: u64) -> u64 {
    raw | VALUE_T_SYM_OBJ
}

/// Tag a raw payload as a value-type symbol, which resolves to itself
/// with no heap lookup.
pub fn create_value_symbol(raw: u64) -> (r: u64)
    ensures
        r == spec_create_value_symbol(raw),
{
    raw | VALUE_T_SYM_OBJ
}

pub open spec fn spec_create_pointer_symbol(raw: u64) -> u64 {
    raw | VALUE_T_PTR_OBJ
}

/// Tag a raw payload as a pointer-type symbol, whose value lives on the
/// heap.
pub fn create_pointer_symbol(raw: u64) -> (r: u64)
    ensures
        r == spec_create_pointer_symbol(raw),
{
    raw | VALUE_T_PTR_OBJ
}

pub open spec fn spec_create_string_pointer(raw: u64) -> u64 {
    raw | VALUE_T_PTR_STR
}

/// Tag a raw payload as a pointer to a heap string.
pub fn create_string_pointer(raw: u64) -> (r: u64)
    ensures
        r == spec_create_string_pointer(raw),
{
    raw | VALUE_T_PTR_STR
}

/// Round trip: tagging a payload that fits the payload mask and
/// truncating it back yields the payload's low 32 bits, and a payload
/// below 2^32 comes back exactly.
pub proof fn lemma_truncate_roundtrip(p: u64)
    requires
        p & PAYLOAD_MASK == p,
    ensures
        spec_truncate_symbol(spec_create_pointer_symbol(p)) == p as u32,
        spec_truncate_symbol(spec_create_value_symbol(p)) == p as u32,
        spec_truncate_symbol(spec_create_string_pointer(p)) == p as u32,
        p & LOW32_MASK == p ==> spec_truncate_symbol(spec_create_pointer_symbol(p)) == p,
{
    assert(p & 0x0000_FFFF_FFFF_FFFFu64 == p ==> ((p | 0xFFFD_0000_0000_0000u64)
        & 0x0000_0000_FFFF_FFFFu64) as u32 == p as u32) by (bit_vector);
    assert(p & 0x0000_FFFF_FFFF_FFFFu64 == p ==> ((p | 0xFFFF_0000_0000_0000u64)
        & 0x0000_0000_FFFF_FFFFu64) as u32 == p as u32) by (bit_vector);
    assert(p & 0x0000_FFFF_FFFF_FFFFu64 == p ==> ((p | 0xFFFC_0000_0000_0000u64)
        & 0x0000_0000_FFFF_FFFFu64) as u32 == p as u32) by (bit_vector);
    assert(p & 0x0000_0000_FFFF_FFFFu64 == p ==> ((p | 0xFFFD_0000_0000_0000u64)
        & 0x0000_0000_FFFF_FFFFu64) as u32 == p) by (bit_vector);
}

} // verus!
