//! Bit-layout constants for the 64-bit tagged value representation.
//!
//! A word is either a plain IEEE-754 double (any bit pattern that is not a
//! NaN), or a boxed value whose top 16 bits are one of seven valid headers.
//! The three low header bits classify the value:
//! truthy/falsey, pointer/keyword, string/object.
use vstd::prelude::*;

verus! {

/// Exponent bits of a double; a word is a NaN when all of these are set
/// and the fraction is nonzero.
pub const F64_EXP_MASK: u64 = 0x7FF0_0000_0000_0000;

/// Fraction bits of a double.
pub const F64_FRAC_MASK: u64 = 0x000F_FFFF_FFFF_FFFF;

/// All bits of a double except the sign: both `+0.0` and `-0.0` clear these.
pub const F64_MAGNITUDE_MASK: u64 = 0x7FFF_FFFF_FFFF_FFFF;

/// Sign bit of a double.
pub const F64_SIGN_MASK: u64 = 0x8000_0000_0000_0000;

/// Set on every boxed (non-number) word: sign, exponent, and the top
/// fraction bit.
pub const SIGNALING_NAN: u64 = 0xFFF8_0000_0000_0000;

pub const QUITE_NAN: u64 = 0xFFF0_0000_0000_0000;

pub const LOW32_MASK: u64 = 0x0000_0000_FFFF_FFFF;

pub const HIGH32_MASK: u64 = 0xFFFF_FFFF_0000_0000;

/// Clears all header bits, preserving the 48-bit payload.
pub const PAYLOAD_MASK: u64 = 0x0000_FFFF_FFFF_FFFF;

/// The full 16-bit header.
pub const VALHEAD_MASK: u64 = 0xFFFF_0000_0000_0000;

/// Header bit deciding truthiness of a boxed value: 0 falsey, 1 truthy.
pub const VALHEAD_TRUTHY_MASK: u64 = 0xFFF4_0000_0000_0000;

/// Header bit deciding reference kind: 0 pointer, 1 keyword/symbol.
pub const VALHEAD_REFTYPE_MASK: u64 = 0xFFF2_0000_0000_0000;

/// Header bit deciding object kind: 0 string, 1 object.
pub const VALHEAD_OBJTYPE_MASK: u64 = 0xFFF1_0000_0000_0000;

/// Pointer to error metadata: the error sentinel header.
pub const VALUE_F_PTR_OBJ: u64 = 0xFFF9_0000_0000_0000;

/// Reserved empty-string sentinel header.
pub const VALUE_F_SYM_STR: u64 = 0xFFFA_0000_0000_0000;

/// Falsey keyword space (False, None, and other empty values).
pub const VALUE_F_SYM_OBJ: u64 = 0xFFFB_0000_0000_0000;

/// Pointer to a heap string; the payload carries a short length.
pub const VALUE_T_PTR_STR: u64 = 0xFFFC_0000_0000_0000;

/// Pointer to a heap object or function.
pub const VALUE_T_PTR_OBJ: u64 = 0xFFFD_0000_0000_0000;

/// Small string (up to 6 bytes) inlined in the payload.
pub const VALUE_T_SYM_STR: u64 = 0xFFFE_0000_0000_0000;

/// Truthy keyword space (keywords and user-defined symbols).
pub const VALUE_T_SYM_OBJ: u64 = 0xFFFF_0000_0000_0000;

/// The empty-string sentinel, outside the reserved precedence range.
pub const SYMBOL_EMPTY_STR: u64 = 0xFFFA_0000_0000_FFFF;

/// The canonical truthy boolean symbol.
pub const SYMBOL_TRUE: u64 = 0xFFFF_0000_0000_0019;

/// The canonical falsey boolean symbol.
pub const SYMBOL_FALSE: u64 = 0xFFFB_0000_0000_001A;

/// The empty-value symbol.
pub const SYMBOL_NONE: u64 = 0xFFFB_0000_0000_001B;

/// Internal call marker recognized by the interpreter.
pub const SYMBOL_CALL_FN: u64 = 0xFFFF_0000_0000_001C;

/// Reserved keyword ids 0..=0x18 index the precedence table in definition
/// order.
pub const SYMBOL_ID_COMMA: u64 = 0x00;

pub const SYMBOL_ID_EQUALS: u64 = 0x01;

pub const SYMBOL_ID_OR: u64 = 0x02;

pub const SYMBOL_ID_AND: u64 = 0x03;

pub const SYMBOL_ID_NOT: u64 = 0x04;

pub const SYMBOL_ID_DBL_EQUALS: u64 = 0x05;

pub const SYMBOL_ID_NOT_EQUALS: u64 = 0x06;

pub const SYMBOL_ID_LT: u64 = 0x07;

pub const SYMBOL_ID_LTE: u64 = 0x08;

pub const SYMBOL_ID_GT: u64 = 0x09;

pub const SYMBOL_ID_GTE: u64 = 0x0A;

pub const SYMBOL_ID_PLUS: u64 = 0x0B;

pub const SYMBOL_ID_MINUS: u64 = 0x0C;

pub const SYMBOL_ID_MULTIPLY: u64 = 0x0D;

pub const SYMBOL_ID_DIVIDE: u64 = 0x0E;

pub const SYMBOL_ID_MODULO: u64 = 0x0F;

pub const SYMBOL_ID_DOT: u64 = 0x10;

pub const SYMBOL_ID_OPEN_PAREN: u64 = 0x11;

pub const SYMBOL_ID_CLOSE_PAREN: u64 = 0x12;

pub const SYMBOL_ID_OPEN_SQBR: u64 = 0x13;

pub const SYMBOL_ID_CLOSE_SQBR: u64 = 0x14;

pub const SYMBOL_ID_OPEN_BRACE: u64 = 0x15;

pub const SYMBOL_ID_CLOSE_BRACE: u64 = 0x16;

pub const SYMBOL_ID_COLON: u64 = 0x17;

pub const SYMBOL_ID_SEMI_COLON: u64 = 0x18;

/// Built-in native function symbols (object-pointer space).
pub const AV_FN_MIN_SYMBOL: u64 = 0xFFFD_0000_0000_0100;

pub const AV_FN_MAX_SYMBOL: u64 = 0xFFFD_0000_0000_0101;

pub const AV_FN_ABS_SYMBOL: u64 = 0xFFFD_0000_0000_0102;

pub const AV_FN_CEIL_SYMBOL: u64 = 0xFFFD_0000_0000_0103;

pub const AV_FN_FLOOR_SYMBOL: u64 = 0xFFFD_0000_0000_0104;

pub const AV_FN_TRUNC_SYMBOL: u64 = 0xFFFD_0000_0000_0105;

pub const AV_FN_ROUND_SYMBOL: u64 = 0xFFFD_0000_0000_0106;

pub const AV_FN_SQRT_SYMBOL: u64 = 0xFFFD_0000_0000_0107;

/// Error words: the top 16 payload bits carry a stage and category code,
/// the low bits index associated metadata. Parse-stage codes are disjoint
/// from interpreter- and runtime-stage codes.
pub const VALUE_ERR: u64 = 0xFFF9_0000_0000_0000;

pub const PARSE_ERR: u64 = 0xFFF9_0100_0000_0000;

pub const INTERPRETER_ERR: u64 = 0xFFF9_0010_0000_0000;

pub const RUNTIME_ERR: u64 = 0xFFF9_0001_0000_0000;

pub const PARSE_ERR_UNTERM_STR: u64 = 0xFFF9_0200_0000_0000;

pub const PARSE_ERR_INVALID_FLOAT: u64 = 0xFFF9_0300_0000_0000;

pub const PARSE_ERR_UNKNOWN_TOKEN: u64 = 0xFFF9_0400_0000_0000;

pub const PARSE_ERR_UNEXPECTED_TOKEN: u64 = 0xFFF9_0500_0000_0000;

pub const PARSE_ERR_UNMATCHED_PARENS: u64 = 0xFFF9_0600_0000_0000;

pub const PARSE_ERR_USED_NAME: u64 = 0xFFF9_0700_0000_0000;

pub const PARSE_ERR_UNK_SYMBOL: u64 = 0xFFF9_0800_0000_0000;

pub const RUNTIME_ERR_INVALID_TYPE: u64 = 0xFFF9_0001_0000_0000;

pub const RUNTIME_ERR_TYPE_NAN: u64 = 0xFFF9_0002_0000_0000;

pub const RUNTIME_ERR_EXPECTED_NUM: u64 = 0xFFF9_0003_0000_0000;

pub const RUNTIME_ERR_EXPECTED_BOOL: u64 = 0xFFF9_0004_0000_0000;

pub const RUNTIME_ERR_UNK_VAL: u64 = 0xFFF9_0005_0000_0000;

pub const RUNTIME_ERR_CIRCULAR_DEP: u64 = 0xFFF9_0006_0000_0000;

pub const RUNTIME_ERR_MEMORY_ACCESS: u64 = 0xFFF9_0007_0000_0000;

pub const RUNTIME_ERR_EXPECTED_STR: u64 = 0xFFF9_0008_0000_0000;

pub const RUNTIME_ERR_DIV_Z: u64 = 0xFFF9_0009_0000_0000;

pub const RUNTIME_ERR_FN_UNK: u64 = 0xFFF9_000A_0000_0000;

pub const RUNTIME_ERR_FN_ARITY: u64 = 0xFFF9_000B_0000_0000;

pub const RUNTIME_ERR_FN_EXPECTED: u64 = 0xFFF9_000C_0000_0000;

/// First payload value available for user-defined symbols; it must be
/// OR-ed with a symbol header to become a symbol word.
pub const APP_SYMBOL_START: u64 = 0x0000_0000_0001_0000;

/// The most hops the resolver follows before giving up on a chain.
pub const RESOLVE_DEPTH_LIMIT: u64 = 1000;

} // verus!
