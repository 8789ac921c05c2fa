use arevel::constants::{
    SYMBOL_FALSE, SYMBOL_NONE, SYMBOL_TRUE, VALUE_ERR, VALUE_F_PTR_OBJ, VALUE_F_SYM_OBJ,
    VALUE_F_SYM_STR, VALUE_T_PTR_OBJ, VALUE_T_PTR_STR, VALUE_T_SYM_OBJ, VALUE_T_SYM_STR,
};
use arevel::structs::ValueType;
use arevel::types::{
    is_error, is_number, is_object, is_pointer, is_string, is_symbol, is_truthy, __av_as_bool,
    __av_typeof, __repr_bool,
};

#[test]
fn test_as_bool() {
    // Verifies is_truthy as well
    assert_eq!(is_truthy(SYMBOL_TRUE), true);
    assert_eq!(is_truthy(SYMBOL_FALSE), false);
    assert_eq!(is_truthy(SYMBOL_NONE), false);
    assert_eq!(is_truthy(VALUE_ERR), false);
    assert_eq!(is_truthy(f64::to_bits(1.0)), true);
    assert_eq!(is_truthy(f64::to_bits(3.0)), true);
    assert_eq!(is_truthy(f64::to_bits(0.0)), false);
    assert_eq!(is_truthy(f64::to_bits(-0.0)), false);
}

#[test]
fn test_truthiness_rules() {
    assert_eq!(is_truthy(f64::to_bits(-3.0)), true);
    assert_eq!(is_truthy(f64::NAN.to_bits()), false);
    assert_eq!(__av_as_bool(SYMBOL_TRUE), true);
    assert_eq!(__repr_bool(true), SYMBOL_TRUE);
    assert_eq!(__repr_bool(false), SYMBOL_FALSE);
}

#[test]
fn test_is_object() {
    assert_eq!(is_object(VALUE_F_PTR_OBJ), true);
    assert_eq!(is_object(VALUE_F_SYM_STR), false);
    assert_eq!(is_object(VALUE_F_SYM_OBJ), true);
    assert_eq!(is_object(VALUE_T_PTR_STR), false);
    assert_eq!(is_object(VALUE_T_PTR_OBJ), true);
    assert_eq!(is_object(VALUE_T_SYM_STR), false);
    assert_eq!(is_object(VALUE_T_SYM_OBJ), true);
}

#[test]
fn test_is_string() {
    assert_eq!(is_string(VALUE_F_PTR_OBJ), false);
    assert_eq!(is_string(VALUE_F_SYM_STR), true);
    assert_eq!(is_string(VALUE_F_SYM_OBJ), false);
    assert_eq!(is_string(VALUE_T_PTR_STR), true);
    assert_eq!(is_string(VALUE_T_PTR_OBJ), false);
    assert_eq!(is_string(VALUE_T_SYM_STR), true);
    assert_eq!(is_string(VALUE_T_SYM_OBJ), false);
}

#[test]
fn test_is_symbol() {
    assert_eq!(is_symbol(VALUE_F_PTR_OBJ), false);
    assert_eq!(is_symbol(VALUE_F_SYM_STR), true);
    assert_eq!(is_symbol(VALUE_F_SYM_OBJ), true);
    assert_eq!(is_symbol(VALUE_T_PTR_STR), false);
    assert_eq!(is_symbol(VALUE_T_PTR_OBJ), false);
    assert_eq!(is_symbol(VALUE_T_SYM_STR), true);
    assert_eq!(is_symbol(VALUE_T_SYM_OBJ), true);
}

#[test]
fn test_is_pointer() {
    assert_eq!(is_pointer(VALUE_F_PTR_OBJ), true);
    assert_eq!(is_pointer(VALUE_F_SYM_STR), false);
    assert_eq!(is_pointer(VALUE_F_SYM_OBJ), false);
    assert_eq!(is_pointer(VALUE_T_PTR_STR), true);
    assert_eq!(is_pointer(VALUE_T_PTR_OBJ), true);
    assert_eq!(is_pointer(VALUE_T_SYM_STR), false);
    assert_eq!(is_pointer(VALUE_T_SYM_OBJ), false);
}

#[test]
fn test_is_error() {
    assert_eq!(is_error(VALUE_F_PTR_OBJ), true);
    assert_eq!(is_error(VALUE_F_SYM_STR), false);
    assert_eq!(is_error(VALUE_F_SYM_OBJ), false);
    assert_eq!(is_error(VALUE_T_PTR_STR), false);
    assert_eq!(is_error(VALUE_T_PTR_OBJ), false);
    assert_eq!(is_error(VALUE_T_SYM_STR), false);
    assert_eq!(is_error(VALUE_T_SYM_OBJ), false);
}

#[test]
fn test_is_number_headers() {
    // No valid boxed header is a plain number; ordinary doubles are.
    for header in [
        VALUE_F_PTR_OBJ,
        VALUE_F_SYM_STR,
        VALUE_F_SYM_OBJ,
        VALUE_T_PTR_STR,
        VALUE_T_PTR_OBJ,
        VALUE_T_SYM_STR,
        VALUE_T_SYM_OBJ,
    ] {
        assert_eq!(is_number(header), false);
        assert_eq!(is_truthy(header), header & 0xFFF4_0000_0000_0000 == 0xFFF4_0000_0000_0000);
    }
    assert_eq!(is_number(f64::to_bits(64.0)), true);
    assert_eq!(is_number(f64::to_bits(f64::INFINITY)), true);
    assert_eq!(is_number(f64::NAN.to_bits()), false);
}

#[test]
fn test_typeof_classification() {
    assert_eq!(__av_typeof(f64::to_bits(2.5)), ValueType::NumericType);
    assert_eq!(__av_typeof(SYMBOL_TRUE), ValueType::SymbolType);
    assert_eq!(__av_typeof(SYMBOL_FALSE), ValueType::SymbolType);
    assert_eq!(__av_typeof(VALUE_T_PTR_OBJ), ValueType::ObjectType);
    assert_eq!(__av_typeof(VALUE_F_PTR_OBJ), ValueType::ObjectType);
    assert_eq!(__av_typeof(VALUE_T_PTR_STR), ValueType::StringType);
    assert_eq!(__av_typeof(VALUE_T_SYM_STR), ValueType::StringType);
}

#[test]
fn test_number_roundtrip() {
    // A double that is not a NaN decodes from its encoding bit-exactly.
    for d in [0.0f64, -0.0, 1.0, -3.25, 0.1, 1e300, -1e-300, f64::INFINITY] {
        assert_eq!(f64::from_bits(d.to_bits()).to_bits(), d.to_bits());
    }
}
