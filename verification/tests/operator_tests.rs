use arevel::constants::{
    APP_SYMBOL_START, RUNTIME_ERR_DIV_Z, RUNTIME_ERR_EXPECTED_NUM, RUNTIME_ERR_EXPECTED_STR,
    RUNTIME_ERR_FN_ARITY, RUNTIME_ERR_FN_UNK, SYMBOL_FALSE, SYMBOL_TRUE,
};
use arevel::environment::Environment;
use arevel::functions::{call_function, __av_abs, __av_max, __av_min, __av_sqrt};
use arevel::operators::{
    __av_add, __av_and, __av_div, __av_gt, __av_gte, __av_lt, __av_lte, __av_mul, __av_not,
    __av_or, __av_sub,
};
use arevel::structs::{Atom, Fn2Kind, NativeFn, NativeFn2, NativeFn3, NumOp};

fn machine_ops(op: NumOp, a: u64, b: u64) -> u64 {
    let x = f64::from_bits(a);
    let y = f64::from_bits(b);
    match op {
        NumOp::Add => (x + y).to_bits(),
        NumOp::Sub => (x - y).to_bits(),
        NumOp::Mul => (x * y).to_bits(),
        NumOp::Div => (x / y).to_bits(),
        NumOp::Ceil => x.ceil().to_bits(),
        NumOp::Floor => x.floor().to_bits(),
        NumOp::Trunc => x.trunc().to_bits(),
        NumOp::Round => x.round().to_bits(),
        NumOp::Sqrt => x.sqrt().to_bits(),
    }
}

#[test]
fn test_add_concatenates_strings() {
    // "foo" + "bar" evaluates to a new string atom "foobar".
    let mut env = Environment::new(APP_SYMBOL_START);
    let a = env.init_value(Atom::StringValue("foo".to_string()));
    let b = env.init_value(Atom::StringValue("bar".to_string()));
    let r = __av_add(&mut env, a, b, &machine_ops);
    let ident = env.deep_resolve(r).expect("fresh string binding");
    match &ident.value {
        Some(Atom::StringValue(s)) => assert_eq!(s, "foobar"),
        _ => panic!("expected a string atom"),
    }
}

#[test]
fn test_add_number_and_string_fails() {
    // 5 + "bar" fails with the expected-string error.
    let mut env = Environment::new(APP_SYMBOL_START);
    let b = env.init_value(Atom::StringValue("bar".to_string()));
    let r = __av_add(&mut env, f64::to_bits(5.0), b, &machine_ops);
    assert_eq!(r, RUNTIME_ERR_EXPECTED_STR);
}

#[test]
fn test_add_numbers() {
    let mut env = Environment::new(APP_SYMBOL_START);
    let r = __av_add(&mut env, f64::to_bits(1.5), f64::to_bits(2.25), &machine_ops);
    assert_eq!(f64::from_bits(r), 3.75);
}

#[test]
fn test_divide_by_zero_fails() {
    // 5 / 0 fails with the divide-by-zero error, for zero of either sign.
    let env = Environment::new(APP_SYMBOL_START);
    let r = __av_div(&env, f64::to_bits(5.0), f64::to_bits(0.0), &machine_ops);
    assert_eq!(r, RUNTIME_ERR_DIV_Z);
    let r = __av_div(&env, f64::to_bits(5.0), f64::to_bits(-0.0), &machine_ops);
    assert_eq!(r, RUNTIME_ERR_DIV_Z);
    let r = __av_div(&env, f64::to_bits(5.0), f64::to_bits(2.0), &machine_ops);
    assert_eq!(f64::from_bits(r), 2.5);
}

#[test]
fn test_arithmetic_rejects_nan() {
    let env = Environment::new(APP_SYMBOL_START);
    let nan = f64::NAN.to_bits();
    assert_eq!(__av_sub(&env, nan, f64::to_bits(1.0), &machine_ops), RUNTIME_ERR_EXPECTED_NUM);
    assert_eq!(
        __av_mul(&env, f64::to_bits(1.0), SYMBOL_TRUE, &machine_ops),
        RUNTIME_ERR_EXPECTED_NUM
    );
    assert_eq!(__av_lt(&env, nan, nan), RUNTIME_ERR_EXPECTED_NUM);
    let r = __av_sub(&env, f64::to_bits(5.0), f64::to_bits(2.0), &machine_ops);
    assert_eq!(f64::from_bits(r), 3.0);
    let r = __av_mul(&env, f64::to_bits(6.0), f64::to_bits(7.0), &machine_ops);
    assert_eq!(f64::from_bits(r), 42.0);
}

#[test]
fn test_arithmetic_resolves_operands() {
    // A pointer symbol bound to a number works like the number itself:
    // operators go through the resolver, never raw tagged words.
    let mut env = Environment::new(APP_SYMBOL_START);
    let ten = env.init_value(Atom::NumericValue(f64::to_bits(10.0)));
    let four = env.init_value(Atom::NumericValue(f64::to_bits(4.0)));
    assert_eq!(f64::from_bits(__av_sub(&env, ten, four, &machine_ops)), 6.0);
    assert_eq!(f64::from_bits(__av_mul(&env, ten, f64::to_bits(2.0), &machine_ops)), 20.0);
    assert_eq!(f64::from_bits(__av_div(&env, ten, four, &machine_ops)), 2.5);
    assert_eq!(__av_lt(&env, four, ten), SYMBOL_TRUE);
    assert_eq!(__av_gte(&env, four, ten), SYMBOL_FALSE);
    // A symbol bound to a string is still a typing error for `-`.
    let text = env.init_value(Atom::StringValue("ten".to_string()));
    assert_eq!(__av_sub(&env, text, four, &machine_ops), RUNTIME_ERR_EXPECTED_NUM);
}

#[test]
fn test_comparisons() {
    let env = Environment::new(APP_SYMBOL_START);
    let two = f64::to_bits(2.0);
    let three = f64::to_bits(3.0);
    let neg = f64::to_bits(-1.0);
    let zero = f64::to_bits(0.0);
    let negzero = f64::to_bits(-0.0);
    assert_eq!(__av_lt(&env, two, three), SYMBOL_TRUE);
    assert_eq!(__av_lt(&env, three, two), SYMBOL_FALSE);
    assert_eq!(__av_lt(&env, neg, zero), SYMBOL_TRUE);
    assert_eq!(__av_lt(&env, negzero, zero), SYMBOL_FALSE);
    assert_eq!(__av_lte(&env, negzero, zero), SYMBOL_TRUE);
    assert_eq!(__av_gt(&env, three, two), SYMBOL_TRUE);
    assert_eq!(__av_gte(&env, two, two), SYMBOL_TRUE);
    assert_eq!(__av_gte(&env, neg, two), SYMBOL_FALSE);
}

#[test]
fn test_boolean_operators() {
    let one = f64::to_bits(1.0);
    let zero = f64::to_bits(0.0);
    assert_eq!(__av_and(one, SYMBOL_TRUE), SYMBOL_TRUE);
    assert_eq!(__av_and(one, zero), SYMBOL_FALSE);
    assert_eq!(__av_or(zero, SYMBOL_FALSE), SYMBOL_FALSE);
    assert_eq!(__av_or(zero, one), SYMBOL_TRUE);
    assert_eq!(__av_not(zero), SYMBOL_TRUE);
    assert_eq!(__av_not(one), SYMBOL_FALSE);
}

#[test]
fn test_min_max_abs() {
    let three = f64::to_bits(3.0);
    let seven = f64::to_bits(7.0);
    assert_eq!(__av_min(three, seven), three);
    assert_eq!(__av_min(seven, three), three);
    assert_eq!(__av_max(three, seven), seven);
    assert_eq!(__av_abs(f64::to_bits(-3.5)), f64::to_bits(3.5));
    assert_eq!(__av_abs(three), three);
    assert_eq!(__av_min(f64::NAN.to_bits(), three), RUNTIME_ERR_EXPECTED_NUM);
}

#[test]
fn test_sqrt_through_unit() {
    let r = __av_sqrt(f64::to_bits(9.0), &machine_ops);
    assert_eq!(f64::from_bits(r), 3.0);
    // The square root of a negative is the unit's NaN, representable
    // and surfaced as a later type error, not a crash.
    let r = __av_sqrt(f64::to_bits(-1.0), &machine_ops);
    assert!(f64::from_bits(r).is_nan());
}

#[test]
fn test_call_function_arity() {
    // min called through the generic path; a wrong argument count is an
    // arity error rather than an out-of-bounds read.
    let min_fn = NativeFn::Fn2(NativeFn2 { func: Fn2Kind::Min });
    let args = vec![f64::to_bits(3.0), f64::to_bits(7.0)];
    assert_eq!(call_function(&min_fn, &args, &machine_ops), f64::to_bits(3.0));
    let too_few = vec![f64::to_bits(3.0)];
    assert_eq!(call_function(&min_fn, &too_few, &machine_ops), RUNTIME_ERR_FN_ARITY);

    // The three-argument arity exists in the calling convention but has
    // no registered built-in.
    let fn3 = NativeFn::Fn3(NativeFn3 {});
    let two_args = vec![0u64, 0u64];
    assert_eq!(call_function(&fn3, &two_args, &machine_ops), RUNTIME_ERR_FN_ARITY);
    let three_args = vec![0u64, 0u64, 0u64];
    assert_eq!(call_function(&fn3, &three_args, &machine_ops), RUNTIME_ERR_FN_UNK);
}
