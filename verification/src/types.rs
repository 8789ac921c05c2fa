//! Type predicates over tagged 64-bit words.
//!
//! Every predicate is a single mask-and-compare against the headers in
//! `constants`. A word is a plain number exactly when it is not an IEEE-754
//! NaN: the exponent bits are not all set, or the fraction is zero. All
//! boxed values are NaNs by construction, so unrecognized NaN headers fall
//! through as (garbage) numbers rather than crashing.
use vstd::prelude::*;

use crate::constants::{
    F64_EXP_MASK, F64_FRAC_MASK, F64_MAGNITUDE_MASK, SIGNALING_NAN, SYMBOL_FALSE, SYMBOL_TRUE,
    VALHEAD_MASK, VALHEAD_OBJTYPE_MASK, VALHEAD_REFTYPE_MASK, VALHEAD_TRUTHY_MASK, VALUE_F_PTR_OBJ,
    VALUE_F_SYM_OBJ, VALUE_F_SYM_STR, VALUE_T_PTR_OBJ, VALUE_T_PTR_STR, VALUE_T_SYM_OBJ,
    VALUE_T_SYM_STR,
};
use crate::structs::ValueType;

verus! {

/// A word is a NaN when all exponent bits are set and the fraction is
/// nonzero; this is the IEEE-754 definition, so it agrees with the
/// self-comparison test `f != f` on the decoded double.
pub open spec fn spec_is_nan(value: u64) -> bool {
    (value & F64_EXP_MASK) == F64_EXP_MASK && (value & F64_FRAC_MASK) != 0
}

pub open spec fn spec_is_number(value: u64) -> bool {
    !spec_is_nan(value)
}

/// Boxed values use the truthy header bit; plain numbers are truthy
/// exactly when their magnitude is nonzero (`+0.0`, `-0.0` and NaN
/// numbers are falsey), which is `f > 0.0 || f < 0.0` on the decoded
/// double.
pub open spec fn spec_is_truthy(value: u64) -> bool {
    if (value & VALHEAD_TRUTHY_MASK) == VALHEAD_TRUTHY_MASK {
        true
    } else {
        !spec_is_nan(value) && (value & F64_MAGNITUDE_MASK) != 0
    }
}

pub open spec fn spec_is_object(value: u64) -> bool {
    (value & VALHEAD_OBJTYPE_MASK) == VALHEAD_OBJTYPE_MASK
}

pub open spec fn spec_is_string(value: u64) -> bool {
    (value & SIGNALING_NAN) == SIGNALING_NAN && (value & VALHEAD_OBJTYPE_MASK)
        != VALHEAD_OBJTYPE_MASK
}

pub open spec fn spec_is_symbol(value: u64) -> bool {
    (value & VALHEAD_REFTYPE_MASK) == VALHEAD_REFTYPE_MASK
}

pub open spec fn spec_is_pointer(value: u64) -> bool {
    (value & SIGNALING_NAN) == SIGNALING_NAN && (value & VALHEAD_REFTYPE_MASK)
        != VALHEAD_REFTYPE_MASK
}

pub open spec fn spec_is_error(value: u64) -> bool {
    (value & VALHEAD_MASK) == VALUE_F_PTR_OBJ
}

pub fn is_number(value: u64) -> (r: bool)
    ensures
        r == spec_is_number(value),
{
    !((value & F64_EXP_MASK) == F64_EXP_MASK && (value & F64_FRAC_MASK) != 0)
}

pub fn is_truthy(value: u64) -> (r: bool)
    ensures
        r == spec_is_truthy(value),
{
    if (value & VALHEAD_TRUTHY_MASK) == VALHEAD_TRUTHY_MASK {
        // Boxed values carry their truthiness in the header.
        true
    } else {
        // Plain numbers: zero of either sign and NaN are false.
        is_number(value) && (value & F64_MAGNITUDE_MASK) != 0
    }
}

pub fn is_object(value: u64) -> (r: bool)
    ensures
        r == spec_is_object(value),
{
    (value & VALHEAD_OBJTYPE_MASK) == VALHEAD_OBJTYPE_MASK
}

pub fn is_string(value: u64) -> (r: bool)
    ensures
        r == spec_is_string(value),
{
    // NaN bits set and the object-kind bit unset: empty string sentinel,
    // small string, or string pointer.
    (value & SIGNALING_NAN) == SIGNALING_NAN && (value & VALHEAD_OBJTYPE_MASK)
        != VALHEAD_OBJTYPE_MASK
}

pub fn is_symbol(value: u64) -> (r: bool)
    ensures
        r == spec_is_symbol(value),
{
    (value & VALHEAD_REFTYPE_MASK) == VALHEAD_REFTYPE_MASK
}

pub fn is_pointer(value: u64) -> (r: bool)
    ensures
        r == spec_is_pointer(value),
{
    (value & SIGNALING_NAN) == SIGNALING_NAN && (value & VALHEAD_REFTYPE_MASK)
        != VALHEAD_REFTYPE_MASK
}

pub fn is_error(value: u64) -> (r: bool)
    ensures
        r == spec_is_error(value),
{
    // Falsey pointers are errors.
    (value & VALHEAD_MASK) == VALUE_F_PTR_OBJ
}

/// Full classification of a word, for the slow path where the dedicated
/// predicates are insufficient (for example generic formatting).
pub open spec fn spec_typeof(value: u64) -> ValueType {
    if (value & SIGNALING_NAN) == SIGNALING_NAN {
        if (value & VALHEAD_OBJTYPE_MASK) != VALHEAD_OBJTYPE_MASK {
            ValueType::StringType
        } else if (value & VALHEAD_MASK) == VALUE_T_SYM_OBJ || (value & VALHEAD_MASK)
            == VALUE_F_SYM_OBJ {
            ValueType::SymbolType
        } else if (value & VALHEAD_MASK) == VALUE_T_PTR_OBJ || (value & VALHEAD_MASK)
            == VALUE_F_PTR_OBJ {
            ValueType::ObjectType
        } else {
            ValueType::NumericType
        }
    } else {
        ValueType::NumericType
    }
}

pub fn __av_typeof(value: u64) -> (r: ValueType)
    ensures
        r == spec_typeof(value),
{
    if (value & SIGNALING_NAN) == SIGNALING_NAN {
        if (value & VALHEAD_OBJTYPE_MASK) != VALHEAD_OBJTYPE_MASK {
            ValueType::StringType
        } else {
            let valhead = value & VALHEAD_MASK;
            if valhead == VALUE_T_SYM_OBJ || valhead == VALUE_F_SYM_OBJ {
                ValueType::SymbolType
            } else if valhead == VALUE_T_PTR_OBJ || valhead == VALUE_F_PTR_OBJ {
                ValueType::ObjectType
            } else {
                // Treat other values as NaN numbers.
                ValueType::NumericType
            }
        }
    } else {
        ValueType::NumericType
    }
}

/// Boolean coercion of a word is its truthiness.
pub fn __av_as_bool(a: u64) -> (r: bool)
    ensures
        r == spec_is_truthy(a),
{
    is_truthy(a)
}

pub open spec fn spec_repr_bool(a: bool) -> u64 {
    if a {
        SYMBOL_TRUE
    } else {
        SYMBOL_FALSE
    }
}

/// Encode a boolean as the canonical True/False symbol, never a raw bit.
pub fn __repr_bool(a: bool) -> (r: u64)
    ensures
        r == spec_repr_bool(a),
{
    if a {
        SYMBOL_TRUE
    } else {
        SYMBOL_FALSE
    }
}

/// Exhaustive truth table of the predicates over the seven valid headers:
/// every word under a given header classifies the same way, whatever its
/// payload. No header is a plain number; the truthy headers are exactly
/// the four `VALUE_T` ones; strings and pointers partition by the low
/// header bits; only `VALUE_F_PTR_OBJ` words are errors.
pub proof fn lemma_header_truth_table()
    ensures
        forall|v: u64|
            (#[trigger] (v & VALHEAD_MASK)) == VALUE_F_PTR_OBJ ==> !spec_is_number(v)
                && !spec_is_truthy(v) && spec_is_object(v) && !spec_is_string(v)
                && !spec_is_symbol(v) && spec_is_pointer(v) && spec_is_error(v),
        forall|v: u64|
            (#[trigger] (v & VALHEAD_MASK)) == VALUE_F_SYM_STR ==> !spec_is_number(v)
                && !spec_is_truthy(v) && !spec_is_object(v) && spec_is_string(v)
                && spec_is_symbol(v) && !spec_is_pointer(v) && !spec_is_error(v),
        forall|v: u64|
            (#[trigger] (v & VALHEAD_MASK)) == VALUE_F_SYM_OBJ ==> !spec_is_number(v)
                && !spec_is_truthy(v) && spec_is_object(v) && !spec_is_string(v)
                && spec_is_symbol(v) && !spec_is_pointer(v) && !spec_is_error(v),
        forall|v: u64|
            (#[trigger] (v & VALHEAD_MASK)) == VALUE_T_PTR_STR ==> !spec_is_number(v)
                && spec_is_truthy(v) && !spec_is_object(v) && spec_is_string(v)
                && !spec_is_symbol(v) && spec_is_pointer(v) && !spec_is_error(v),
        forall|v: u64|
            (#[trigger] (v & VALHEAD_MASK)) == VALUE_T_PTR_OBJ ==> !spec_is_number(v)
                && spec_is_truthy(v) && spec_is_object(v) && !spec_is_string(v)
                && !spec_is_symbol(v) && spec_is_pointer(v) && !spec_is_error(v),
        forall|v: u64|
            (#[trigger] (v & VALHEAD_MASK)) == VALUE_T_SYM_STR ==> !spec_is_number(v)
                && spec_is_truthy(v) && !spec_is_object(v) && spec_is_string(v)
                && spec_is_symbol(v) && !spec_is_pointer(v) && !spec_is_error(v),
        forall|v: u64|
            (#[trigger] (v & VALHEAD_MASK)) == VALUE_T_SYM_OBJ ==> !spec_is_number(v)
                && spec_is_truthy(v) && spec_is_object(v) && !spec_is_string(v)
                && spec_is_symbol(v) && !spec_is_pointer(v) && !spec_is_error(v),
{
    assert(forall|v: u64|
        (#[trigger] (v & 0xFFFF_0000_0000_0000u64)) == 0xFFF9_0000_0000_0000u64 ==> !(!((v
            & 0x7FF0_0000_0000_0000u64) == 0x7FF0_0000_0000_0000u64 && (v
            & 0x000F_FFFF_FFFF_FFFFu64) != 0)) && !((v & 0xFFF4_0000_0000_0000u64)
            == 0xFFF4_0000_0000_0000u64) && (v & 0xFFF1_0000_0000_0000u64)
            == 0xFFF1_0000_0000_0000u64 && !((v & 0xFFF1_0000_0000_0000u64)
            != 0xFFF1_0000_0000_0000u64) && !((v & 0xFFF2_0000_0000_0000u64)
            == 0xFFF2_0000_0000_0000u64) && (v & 0xFFF8_0000_0000_0000u64)
            == 0xFFF8_0000_0000_0000u64) by (bit_vector);
    assert(forall|v: u64|
        (#[trigger] (v & 0xFFFF_0000_0000_0000u64)) == 0xFFFA_0000_0000_0000u64 ==> ((v
            & 0x7FF0_0000_0000_0000u64) == 0x7FF0_0000_0000_0000u64 && (v
            & 0x000F_FFFF_FFFF_FFFFu64) != 0) && !((v & 0xFFF4_0000_0000_0000u64)
            == 0xFFF4_0000_0000_0000u64) && (v & 0xFFF1_0000_0000_0000u64)
            != 0xFFF1_0000_0000_0000u64 && (v & 0xFFF8_0000_0000_0000u64)
            == 0xFFF8_0000_0000_0000u64 && (v & 0xFFF2_0000_0000_0000u64)
            == 0xFFF2_0000_0000_0000u64) by (bit_vector);
    assert(forall|v: u64|
        (#[trigger] (v & 0xFFFF_0000_0000_0000u64)) == 0xFFFB_0000_0000_0000u64 ==> ((v
            & 0x7FF0_0000_0000_0000u64) == 0x7FF0_0000_0000_0000u64 && (v
            & 0x000F_FFFF_FFFF_FFFFu64) != 0) && !((v & 0xFFF4_0000_0000_0000u64)
            == 0xFFF4_0000_0000_0000u64) && (v & 0xFFF1_0000_0000_0000u64)
            == 0xFFF1_0000_0000_0000u64 && (v & 0xFFF8_0000_0000_0000u64)
            == 0xFFF8_0000_0000_0000u64 && (v & 0xFFF2_0000_0000_0000u64)
            == 0xFFF2_0000_0000_0000u64) by (bit_vector);
    assert(forall|v: u64|
        (#[trigger] (v & 0xFFFF_0000_0000_0000u64)) == 0xFFFC_0000_0000_0000u64 ==> ((v
            & 0x7FF0_0000_0000_0000u64) == 0x7FF0_0000_0000_0000u64 && (v
            & 0x000F_FFFF_FFFF_FFFFu64) != 0) && ((v & 0xFFF4_0000_0000_0000u64)
            == 0xFFF4_0000_0000_0000u64) && (v & 0xFFF1_0000_0000_0000u64)
            != 0xFFF1_0000_0000_0000u64 && (v & 0xFFF8_0000_0000_0000u64)
            == 0xFFF8_0000_0000_0000u64 && (v & 0xFFF2_0000_0000_0000u64)
            != 0xFFF2_0000_0000_0000u64) by (bit_vector);
    assert(forall|v: u64|
        (#[trigger] (v & 0xFFFF_0000_0000_0000u64)) == 0xFFFD_0000_0000_0000u64 ==> ((v
            & 0x7FF0_0000_0000_0000u64) == 0x7FF0_0000_0000_0000u64 && (v
            & 0x000F_FFFF_FFFF_FFFFu64) != 0) && ((v & 0xFFF4_0000_0000_0000u64)
            == 0xFFF4_0000_0000_0000u64) && (v & 0xFFF1_0000_0000_0000u64)
            == 0xFFF1_0000_0000_0000u64 && (v & 0xFFF8_0000_0000_0000u64)
            == 0xFFF8_0000_0000_0000u64 && (v & 0xFFF2_0000_0000_0000u64)
            != 0xFFF2_0000_0000_0000u64) by (bit_vector);
    assert(forall|v: u64|
        (#[trigger] (v & 0xFFFF_0000_0000_0000u64)) == 0xFFFE_0000_0000_0000u64 ==> ((v
            & 0x7FF0_0000_0000_0000u64) == 0x7FF0_0000_0000_0000u64 && (v
            & 0x000F_FFFF_FFFF_FFFFu64) != 0) && ((v & 0xFFF4_0000_0000_0000u64)
            == 0xFFF4_0000_0000_0000u64) && (v & 0xFFF1_0000_0000_0000u64)
            != 0xFFF1_0000_0000_0000u64 && (v & 0xFFF8_0000_0000_0000u64)
            == 0xFFF8_0000_0000_0000u64 && (v & 0xFFF2_0000_0000_0000u64)
            == 0xFFF2_0000_0000_0000u64) by (bit_vector);
    assert(forall|v: u64|
        (#[trigger] (v & 0xFFFF_0000_0000_0000u64)) == 0xFFFF_0000_0000_0000u64 ==> ((v
            & 0x7FF0_0000_0000_0000u64) == 0x7FF0_0000_0000_0000u64 && (v
            & 0x000F_FFFF_FFFF_FFFFu64) != 0) && ((v & 0xFFF4_0000_0000_0000u64)
            == 0xFFF4_0000_0000_0000u64) && (v & 0xFFF1_0000_0000_0000u64)
            == 0xFFF1_0000_0000_0000u64 && (v & 0xFFF8_0000_0000_0000u64)
            == 0xFFF8_0000_0000_0000u64 && (v & 0xFFF2_0000_0000_0000u64)
            == 0xFFF2_0000_0000_0000u64) by (bit_vector);
}

} // verus!
