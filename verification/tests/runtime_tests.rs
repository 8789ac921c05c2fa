use arevel::constants::{
    APP_SYMBOL_START, PAYLOAD_MASK, RUNTIME_ERR_DIV_Z, SYMBOL_ID_PLUS, VALHEAD_MASK,
    VALUE_T_PTR_OBJ,
};
use arevel::environment::Environment;
use arevel::runtime::{builtin_modules, error_message, keyword_operation, reserved_symbols};
use arevel::structs::{Atom, BinOp};
use arevel::utils::create_value_symbol;

#[test]
fn test_symbol_order() {
    // The reserved symbols list is meant to be ordered by symbol id so
    // it can serve as a fast lookup table for precedence and dispatch;
    // verify this order is preserved in future modifications.
    let mut index = 0;
    for symbol in reserved_symbols().iter() {
        let symbol_value = symbol.symbol & PAYLOAD_MASK;
        assert_eq!(symbol_value, index);
        index += 1;
    }
}

#[test]
fn test_symbol_type() {
    let mut env = Environment::new(APP_SYMBOL_START);
    let symbol_id = env.init_value(Atom::StringValue("Hello".to_string()));
    let symbol_header = symbol_id & VALHEAD_MASK;
    assert_eq!(symbol_header, VALUE_T_PTR_OBJ);
}

#[test]
fn test_builtin_modules_names() {
    let modules = builtin_modules();
    assert_eq!(modules.len(), 8);
    assert_eq!(modules[0].name, "min");
    assert_eq!(modules[7].name, "sqrt");
}

#[test]
fn test_keyword_operation_lookup() {
    assert_eq!(keyword_operation(create_value_symbol(SYMBOL_ID_PLUS)), Some(BinOp::Add));
    assert_eq!(keyword_operation(create_value_symbol(0x0E)), Some(BinOp::Div));
    assert_eq!(keyword_operation(create_value_symbol(0x04)), None); // `not` is unary
    assert_eq!(keyword_operation(0), None);
}

#[test]
fn test_error_messages() {
    assert_eq!(
        error_message(RUNTIME_ERR_DIV_Z),
        "Dividing by zero is undefined. Make sure the denominator is not a zero before dividing."
    );
}

#[test]
fn test_resolver_cycle_safety() {
    // A scope where A's value is Symbol(B) and B's value is Symbol(A):
    // deep resolution terminates and returns no value.
    let mut env = Environment::new(APP_SYMBOL_START);
    let a = env.define_identifier();
    let b = env.define_identifier();
    env.bind_value(a, Atom::SymbolValue(b));
    env.bind_value(b, Atom::SymbolValue(a));
    assert!(env.deep_resolve(a).is_none());
    assert!(env.deep_resolve(b).is_none());

    // Immediate self-reference is the one-symbol cycle.
    let c = env.define_identifier();
    env.bind_value(c, Atom::SymbolValue(c));
    assert!(env.deep_resolve(c).is_none());
}

#[test]
fn test_resolver_chain() {
    // A -> B -> C -> 42.0 resolves to the identifier holding 42.0.
    let mut env = Environment::new(APP_SYMBOL_START);
    let a = env.define_identifier();
    let b = env.define_identifier();
    let c = env.define_identifier();
    env.bind_value(a, Atom::SymbolValue(b));
    env.bind_value(b, Atom::SymbolValue(c));
    env.bind_value(c, Atom::NumericValue(f64::to_bits(42.0)));
    let resolved = env.deep_resolve(a).expect("chain should resolve");
    assert_eq!(resolved.symbol, c);
    match &resolved.value {
        Some(Atom::NumericValue(bits)) => assert_eq!(*bits, f64::to_bits(42.0)),
        other => panic!("unexpected terminal value: {:?}", other.is_some()),
    }
}

#[test]
fn test_name_binding_first_wins() {
    let mut env = Environment::new(APP_SYMBOL_START);
    let s1 = env.define_identifier();
    let s2 = env.define_identifier();
    env.bind_name(s1, "Revenue".to_string());
    // A later attempt to rebind the same normalized name is ignored.
    env.bind_name(s2, "revenue".to_string());
    assert_eq!(env.lookup_by_name("REVENUE".to_string()), Some(s1));
    assert_eq!(env.lookup_by_name("  revenue  ".to_string()), Some(s1));
    assert!(!env.is_valid_name("Revenue".to_string()));
    assert!(env.is_valid_name("Costs".to_string()));

    // The normalized key is trimmed and case-folded with the language's
    // full case mapping, so padded and non-ASCII spellings coincide.
    let s3 = env.define_identifier();
    env.bind_name(s3, "  crédit  ".to_string());
    assert_eq!(env.lookup_by_name("CRÉDIT".to_string()), Some(s3));
    assert!(!env.is_valid_name("crédit".to_string()));
}

#[test]
fn test_lookup_falls_back_to_parent() {
    // A child scope reads its ancestors, never the other way around.
    let mut parent = Environment::new(APP_SYMBOL_START);
    let s = parent.define_identifier();
    parent.bind_name(s, "total".to_string());
    parent.bind_value(s, Atom::NumericValue(f64::to_bits(7.0)));

    let mut child = Environment::new(parent.next_symbol_id);
    child.parent = Some(Box::new(parent));
    assert_eq!(child.lookup_by_name("total".to_string()), Some(s));
    let ident = child.lookup(s).expect("ancestor lookup");
    assert_eq!(ident.symbol, s);
    let resolved = child.deep_resolve(s).expect("ancestor resolution");
    match &resolved.value {
        Some(Atom::NumericValue(bits)) => assert_eq!(*bits, f64::to_bits(7.0)),
        _ => panic!("expected the parent's numeric value"),
    }
}
