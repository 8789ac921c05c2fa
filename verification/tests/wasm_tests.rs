use arevel::encoding::{encode_nested_vector, encode_section, encode_string, encode_vector};
use arevel::leb128::{encode_signed, encode_unsigned};
use arevel::wasm::aa_gen_wasm;

#[test]
fn test_encode_unsigned() {
    let result = encode_unsigned(7);
    let expected = vec![0x07];

    assert_eq!(expected, result);
}

#[test]
fn test_encode_unsigned_multibyte() {
    assert_eq!(encode_unsigned(624485), vec![0xE5, 0x8E, 0x26]);
    assert_eq!(encode_unsigned(0), vec![0x00]);
    assert_eq!(encode_unsigned(127), vec![0x7F]);
    assert_eq!(encode_unsigned(128), vec![0x80, 0x01]);
    assert_eq!(
        encode_unsigned(u64::MAX),
        vec![0xFF, 0xFF, 0xFF, 0xFF, 0xFF, 0xFF, 0xFF, 0xFF, 0xFF, 0x01]
    );
}

#[test]
fn test_encode_signed_values() {
    assert_eq!(encode_signed(0), vec![0x00]);
    assert_eq!(encode_signed(2), vec![0x02]);
    assert_eq!(encode_signed(-2), vec![0x7E]);
    assert_eq!(encode_signed(63), vec![0x3F]);
    assert_eq!(encode_signed(64), vec![0xC0, 0x00]);
    assert_eq!(encode_signed(-64), vec![0x40]);
    assert_eq!(encode_signed(-65), vec![0xBF, 0x7F]);
    assert_eq!(encode_signed(-123456), vec![0xC0, 0xBB, 0x78]);
}

#[test]
fn test_encode_vector() {
    let test_data = vec![0x01, 0x60, 0x02, 0x7d, 0x7d, 0x01, 0x7d];
    let result = encode_vector(test_data);
    let expected = vec![0x07, 0x01, 0x60, 0x02, 0x7d, 0x7d, 0x01, 0x7d];

    assert_eq!(expected, result);
}

#[test]
fn test_encode_string_name() {
    let result = encode_string(String::from("run"));
    assert_eq!(result, vec![0x03, 0x72, 0x75, 0x6e]);
}

#[test]
fn test_encode_nested_and_section() {
    let nested = encode_nested_vector(vec![vec![0x60, 0x00], vec![0x7d]]);
    assert_eq!(nested, vec![0x02, 0x60, 0x00, 0x7d]);
    let section = encode_section(7, vec![0xAA, 0xBB]);
    assert_eq!(section, vec![0x07, 0x02, 0xAA, 0xBB]);
}

#[test]
fn test_gen_add_fn() {
    let result_code = aa_gen_wasm();
    let expected_code = vec![
        0x00, 0x61, 0x73, 0x6d, 0x01, 0x00, 0x00, 0x00, 0x01, 0x07, 0x01, 0x60, 0x02, 0x7d, 0x7d,
        0x01, 0x7d, 0x03, 0x02, 0x01, 0x00, 0x07, 0x07, 0x01, 0x03, 0x72, 0x75, 0x6e, 0x00, 0x00,
        0x0a, 0x09, 0x01, 0x07, 0x00, 0x20, 0x00, 0x20, 0x01, 0x92, 0x0b,
    ];

    assert_eq!(expected_code, result_code);
}
