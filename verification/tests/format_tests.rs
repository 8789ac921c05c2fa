use arevel::constants::{SYMBOL_FALSE, SYMBOL_TRUE};
use arevel::format::{f64_int_value, fmt_symbols_list, fmt_symbols_map, repr_atom, repr_number, repr_symbol};
use arevel::heap::get_interpolation_step;
use arevel::structs::{Atom, AvObject};
use arevel::utils::{create_pointer_symbol, create_value_symbol, truncate_symbol};

fn host_format(bits: u64) -> String {
    format!("{:?}", f64::from_bits(bits))
}

#[test]
fn test_f64_int_value() {
    assert_eq!(f64_int_value(f64::to_bits(0.0)), Some(0));
    assert_eq!(f64_int_value(f64::to_bits(-0.0)), Some(0));
    assert_eq!(f64_int_value(f64::to_bits(3.0)), Some(3));
    assert_eq!(f64_int_value(f64::to_bits(-7.0)), Some(-7));
    assert_eq!(f64_int_value(f64::to_bits(2.5)), None);
    assert_eq!(f64_int_value(f64::to_bits(9007199254740992.0)), Some(9007199254740992));
    assert_eq!(f64_int_value(f64::to_bits(1e300)), None);
    assert_eq!(f64_int_value(f64::NAN.to_bits()), None);
    assert_eq!(f64_int_value(f64::INFINITY.to_bits()), None);
}

#[test]
fn test_repr_number() {
    // Integral values print without trailing fractional zeros.
    assert_eq!(repr_number(f64::to_bits(5.0), &host_format), "5");
    assert_eq!(repr_number(f64::to_bits(-12.0), &host_format), "-12");
    assert_eq!(repr_number(f64::to_bits(0.0), &host_format), "0");
    // Fractional values fall through to the host formatter.
    assert_eq!(repr_number(f64::to_bits(2.5), &host_format), "2.5");
    assert_eq!(repr_number(f64::to_bits(-0.125), &host_format), "-0.125");
}

#[test]
fn test_repr_symbol() {
    assert_eq!(repr_symbol(&SYMBOL_TRUE), "True");
    assert_eq!(repr_symbol(&SYMBOL_FALSE), "False");
    assert_eq!(repr_symbol(&create_value_symbol(0x0B)), "+");
    assert_eq!(repr_symbol(&create_value_symbol(0x02)), "or");
    // A symbol outside the reserved table prints its hex id.
    let user = create_pointer_symbol(0x12345);
    assert_eq!(repr_symbol(&user), format!("{:X}", user));
}

#[test]
fn test_repr_atom_variants() {
    assert_eq!(repr_atom(&Atom::NumericValue(f64::to_bits(8.0)), &host_format), "8");
    assert_eq!(repr_atom(&Atom::StringValue("plain".to_string()), &host_format), "plain");
    assert_eq!(repr_atom(&Atom::SymbolValue(SYMBOL_TRUE), &host_format), "True");
    let mut obj = AvObject::new();
    obj.id = 37;
    assert_eq!(repr_atom(&Atom::ObjectValue(obj), &host_format), "37");
}

#[test]
fn test_fmt_symbols_map_entries() {
    let empty: Vec<(u64, Atom)> = vec![];
    assert_eq!(fmt_symbols_map(&empty, &host_format), "{\n}");
    let pairs = vec![
        (0x1Au64, Atom::NumericValue(f64::to_bits(5.0))),
        (0x2Bu64, Atom::StringValue("hi".to_string())),
    ];
    assert_eq!(fmt_symbols_map(&pairs, &host_format), "{\n\t1A: 5\n\t2B: hi\n}");
    // A nested mapping prints recursively.
    let nested = vec![(
        0x1u64,
        Atom::HashMapValue(vec![(0x2u64, Atom::NumericValue(f64::to_bits(7.0)))]),
    )];
    assert_eq!(fmt_symbols_map(&nested, &host_format), "{\n\t1: {\n\t2: 7\n}\n}");
    assert_eq!(
        repr_atom(&Atom::HashMapValue(pairs), &host_format),
        "{\n\t1A: 5\n\t2B: hi\n}"
    );
}

#[test]
fn test_fmt_symbols_list() {
    assert_eq!(fmt_symbols_list(&vec![]), "");
    assert_eq!(fmt_symbols_list(&vec![0x1A]), "1A");
    assert_eq!(fmt_symbols_list(&vec![0x1A, 0x2B, 0x0]), "1A,2B,0");
}

#[test]
fn test_truncate_roundtrip() {
    // Tagging a payload and truncating it back yields the payload.
    for p in [0u64, 1, 0xFFFF, 0xFFFF_FFFF, 0x1234_5678] {
        assert_eq!(truncate_symbol(create_pointer_symbol(p)), p as u32);
    }
    // Only the low 32 bits survive truncation.
    assert_eq!(truncate_symbol(create_pointer_symbol(0x1_0000_0001)), 1);
}

#[test]
fn test_av_object_store() {
    let mut obj = AvObject::new();
    assert_eq!(obj.av_values, None);
    obj.resize_values(3);
    assert_eq!(obj.av_values, None);
    obj.av_values = Some(vec![]);
    obj.resize_values(3);
    obj.save_value(1, 42);
    assert_eq!(obj.get_value(0), 0);
    assert_eq!(obj.get_value(1), 42);
    obj.resize_values(2);
    assert_eq!(obj.av_values.as_ref().unwrap().len(), 2);
}

#[test]
fn test_interpolation_step() {
    // Halfway between the known endpoints lands halfway along the
    // index range.
    let step = get_interpolation_step(150, 10, 200, 0, 100, 20, 0);
    assert_eq!(step, 5);
    let step = get_interpolation_step(30, 4, 20, 0, 0, 8, 40);
    assert_eq!(step, 2);
}
