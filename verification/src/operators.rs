//! Binary operators over tagged words.
//!
//! Arithmetic and comparisons resolve both operands through the scope
//! first, then decide typing, truthiness, ordering and the zero test on
//! the resolved bit patterns. The floating-point arithmetic itself is
//! delegated to a host-supplied closure (`fpu`); the contracts state the
//! decision exactly and tie every delegated result to the closure's own
//! postcondition.
use vstd::prelude::*;
use vstd::string::StringExecFns;

use crate::constants::{
    F64_MAGNITUDE_MASK, RUNTIME_ERR_DIV_Z, RUNTIME_ERR_EXPECTED_NUM, RUNTIME_ERR_EXPECTED_STR,
};
use crate::environment::{resolve_atom, spec_resolve_atom, Environment};
use crate::structs::{Atom, AtomView, NumOp};
use crate::types::{
    is_number, is_truthy, spec_is_nan, spec_is_truthy, spec_repr_bool, __av_as_bool, __repr_bool,
};
use crate::utils::spec_create_pointer_symbol;

verus! {

/// A well-behaved floating-point unit can be called on any operands.
pub open spec fn fpu_ok<F: Fn(NumOp, u64, u64) -> u64>(fpu: F) -> bool {
    forall|args: (NumOp, u64, u64)| #[trigger] call_requires(fpu, args)
}

/// IEEE-754 `<` on two non-NaN doubles, decided on the bit patterns:
/// zeroes of either sign are equal; otherwise a negative is below a
/// positive, two positives order as their bits, and two negatives order
/// as their bits reversed.
pub open spec fn spec_num_lt(a: u64, b: u64) -> bool {
    if (a & F64_MAGNITUDE_MASK) == 0 && (b & F64_MAGNITUDE_MASK) == 0 {
        false
    } else if (a >> 63) != (b >> 63) {
        (a >> 63) == 1
    } else if (a >> 63) == 0 {
        a < b
    } else {
        a > b
    }
}

/// IEEE-754 `<` on non-NaN doubles, from the bits alone.
pub fn num_lt(a: u64, b: u64) -> (r: bool)
    ensures
        r == spec_num_lt(a, b),
{
    if (a & F64_MAGNITUDE_MASK) == 0 && (b & F64_MAGNITUDE_MASK) == 0 {
        false
    } else if (a >> 63) != (b >> 63) {
        (a >> 63) == 1
    } else if (a >> 63) == 0 {
        a < b
    } else {
        a > b
    }
}

/// The numeric operand pair an arithmetic operator or comparison works
/// on: both operands resolved through the scope, both plain (non-NaN)
/// numbers. Anything else is a typing error.
pub open spec fn spec_arith_operands(env: &Environment, a: u64, b: u64) -> Option<(u64, u64)> {
    match (spec_resolve_atom(env, a), spec_resolve_atom(env, b)) {
        (AtomView::Numeric(fa), AtomView::Numeric(fb)) => {
            if !spec_is_nan(fa) && !spec_is_nan(fb) {
                Option::Some((fa, fb))
            } else {
                Option::None
            }
        },
        _ => Option::None,
    }
}

/// Resolve both operands and keep them only if both are plain numbers.
fn arith_operands(env: &Environment, a: u64, b: u64) -> (r: Option<(u64, u64)>)
    ensures
        r == spec_arith_operands(env, a, b),
{
    let atom_a = resolve_atom(env, a);
    let atom_b = resolve_atom(env, b);
    match (atom_a, atom_b) {
        (Atom::NumericValue(fa), Atom::NumericValue(fb)) => {
            if is_number(fa) && is_number(fb) {
                Option::Some((fa, fb))
            } else {
                Option::None
            }
        },
        _ => Option::None,
    }
}

/// How `+` dispatches on its resolved operands.
pub ghost enum AddCase {
    /// Both resolve numeric: delegate these bit patterns to the unit.
    Numbers(u64, u64),
    /// Both resolve to strings: concatenate.
    Strings(Seq<char>, Seq<char>),
    /// Neither operand is a string and they are not both numbers.
    ExpectedNumber,
    /// Exactly one operand is a string.
    ExpectedString,
}

/// The typing decision of `+` over the resolved operands: both numbers
/// add, both strings concatenate, a lone string fails with the string
/// error, and anything else fails with the numeric error.
pub open spec fn spec_add_case(env: &Environment, a: u64, b: u64) -> AddCase {
    match spec_resolve_atom(env, a) {
        AtomView::Str(sa) => match spec_resolve_atom(env, b) {
            AtomView::Str(sb) => AddCase::Strings(sa, sb),
            _ => AddCase::ExpectedString,
        },
        AtomView::Numeric(fa) => match spec_resolve_atom(env, b) {
            AtomView::Numeric(fb) => AddCase::Numbers(fa, fb),
            AtomView::Str(_) => AddCase::ExpectedString,
            _ => AddCase::ExpectedNumber,
        },
        _ => match spec_resolve_atom(env, b) {
            AtomView::Str(_) => AddCase::ExpectedString,
            _ => AddCase::ExpectedNumber,
        },
    }
}

/// `+` is overloaded: numbers add (through the unit), strings
/// concatenate into a fresh heap string bound into the scope, a lone
/// string operand fails with the string error, and any other mismatch
/// fails with the numeric error.
pub fn __av_add<F: Fn(NumOp, u64, u64) -> u64>(
    env: &mut Environment,
    a: u64,
    b: u64,
    fpu: &F,
) -> (r: u64)
    requires
        fpu_ok(*fpu),
        old(env).next_symbol_id < u64::MAX,
    ensures
        spec_add_case(old(env), a, b) matches AddCase::Numbers(fa, fb) ==> call_ensures(
            *fpu,
            (NumOp::Add, fa, fb),
            r,
        ) && *final(env) == *old(env),
        spec_add_case(old(env), a, b) matches AddCase::Strings(sa, sb) ==> {
            &&& r == spec_create_pointer_symbol(old(env).next_symbol_id)
            &&& final(env).next_symbol_id == old(env).next_symbol_id + 1
            &&& final(env).parent == old(env).parent
            &&& final(env).body == old(env).body
            &&& final(env).normname_symbols == old(env).normname_symbols
            &&& final(env).ids().dom() == old(env).ids().dom().insert(r)
            &&& (forall|s: u64|
                s != r && old(env).ids().contains_key(s) ==> final(env).ids()[s] == old(
                    env,
                ).ids()[s])
            &&& final(env).ids()[r]@.value == Option::Some(AtomView::Str(sa + sb))
        },
        spec_add_case(old(env), a, b) is ExpectedNumber ==> r == RUNTIME_ERR_EXPECTED_NUM
            && *final(env) == *old(env),
        spec_add_case(old(env), a, b) is ExpectedString ==> r == RUNTIME_ERR_EXPECTED_STR
            && *final(env) == *old(env),
{
    // Resolve both elements to atoms first, then dispatch on the pair.
    let atom_a = resolve_atom(env, a);
    let atom_b = resolve_atom(env, b);
    match atom_a {
        Atom::StringValue(str_a) => {
            match atom_b {
                Atom::StringValue(str_b) => {
                    let result_str = str_a.concat(str_b.as_str());
                    let result_symbol = env.init_value(Atom::StringValue(result_str));
                    result_symbol
                },
                _ => RUNTIME_ERR_EXPECTED_STR,
            }
        },
        Atom::NumericValue(f_a) => {
            match atom_b {
                Atom::NumericValue(f_b) => fpu(NumOp::Add, f_a, f_b),
                Atom::StringValue(_) => RUNTIME_ERR_EXPECTED_STR,
                _ => RUNTIME_ERR_EXPECTED_NUM,
            }
        },
        _ => {
            match atom_b {
                Atom::StringValue(_) => RUNTIME_ERR_EXPECTED_STR,
                _ => RUNTIME_ERR_EXPECTED_NUM,
            }
        },
    }
}

/// `-` requires both operands to resolve to plain numbers and
/// delegates their difference to the unit.
pub fn __av_sub<F: Fn(NumOp, u64, u64) -> u64>(
    env: &Environment,
    a: u64,
    b: u64,
    fpu: &F,
) -> (r: u64)
    requires
        fpu_ok(*fpu),
    ensures
        spec_arith_operands(env, a, b) matches Option::Some((fa, fb)) ==> call_ensures(
            *fpu,
            (NumOp::Sub, fa, fb),
            r,
        ),
        spec_arith_operands(env, a, b) is None ==> r == RUNTIME_ERR_EXPECTED_NUM,
{
    match arith_operands(env, a, b) {
        Option::Some((fa, fb)) => fpu(NumOp::Sub, fa, fb),
        Option::None => RUNTIME_ERR_EXPECTED_NUM,
    }
}

/// `*` requires both operands to resolve to plain numbers and
/// delegates their product to the unit.
pub fn __av_mul<F: Fn(NumOp, u64, u64) -> u64>(
    env: &Environment,
    a: u64,
    b: u64,
    fpu: &F,
) -> (r: u64)
    requires
        fpu_ok(*fpu),
    ensures
        spec_arith_operands(env, a, b) matches Option::Some((fa, fb)) ==> call_ensures(
            *fpu,
            (NumOp::Mul, fa, fb),
            r,
        ),
        spec_arith_operands(env, a, b) is None ==> r == RUNTIME_ERR_EXPECTED_NUM,
{
    match arith_operands(env, a, b) {
        Option::Some((fa, fb)) => fpu(NumOp::Mul, fa, fb),
        Option::None => RUNTIME_ERR_EXPECTED_NUM,
    }
}

/// `/` requires both operands to resolve to plain numbers, rejects a
/// zero divisor of either sign, and otherwise delegates to the unit.
pub fn __av_div<F: Fn(NumOp, u64, u64) -> u64>(
    env: &Environment,
    a: u64,
    b: u64,
    fpu: &F,
) -> (r: u64)
    requires
        fpu_ok(*fpu),
    ensures
        spec_arith_operands(env, a, b) matches Option::Some((fa, fb)) ==> (if (fb
            & F64_MAGNITUDE_MASK) == 0 {
            r == RUNTIME_ERR_DIV_Z
        } else {
            call_ensures(*fpu, (NumOp::Div, fa, fb), r)
        }),
        spec_arith_operands(env, a, b) is None ==> r == RUNTIME_ERR_EXPECTED_NUM,
{
    match arith_operands(env, a, b) {
        Option::Some((fa, fb)) => {
            if (fb & F64_MAGNITUDE_MASK) == 0 {
                // Dividing by zero is undefined.
                RUNTIME_ERR_DIV_Z
            } else {
                fpu(NumOp::Div, fa, fb)
            }
        },
        Option::None => RUNTIME_ERR_EXPECTED_NUM,
    }
}

/// `and` coerces both operands by the truthiness rule; both are always
/// evaluated, with no short-circuit at this layer.
pub fn __av_and(a: u64, b: u64) -> (r: u64)
    ensures
        r == spec_repr_bool(spec_is_truthy(a) && spec_is_truthy(b)),
{
    let a_bool: bool = __av_as_bool(a);
    let b_bool: bool = __av_as_bool(b);
    __repr_bool(a_bool && b_bool)
}

/// `or` coerces both operands by the truthiness rule; both are always
/// evaluated, with no short-circuit at this layer.
pub fn __av_or(a: u64, b: u64) -> (r: u64)
    ensures
        r == spec_repr_bool(spec_is_truthy(a) || spec_is_truthy(b)),
{
    let a_bool: bool = __av_as_bool(a);
    let b_bool: bool = __av_as_bool(b);
    __repr_bool(a_bool || b_bool)
}

/// `not` coerces its operand by the truthiness rule.
pub fn __av_not(a: u64) -> (r: u64)
    ensures
        r == spec_repr_bool(!spec_is_truthy(a)),
{
    let a_bool: bool = __av_as_bool(a);
    __repr_bool(!a_bool)
}

/// `>` requires both operands to resolve to plain numbers; the result
/// is the canonical boolean symbol.
pub fn __av_gt(env: &Environment, a: u64, b: u64) -> (r: u64)
    ensures
        spec_arith_operands(env, a, b) matches Option::Some((fa, fb)) ==> r == spec_repr_bool(
            spec_num_lt(fb, fa),
        ),
        spec_arith_operands(env, a, b) is None ==> r == RUNTIME_ERR_EXPECTED_NUM,
{
    match arith_operands(env, a, b) {
        Option::Some((fa, fb)) => __repr_bool(num_lt(fb, fa)),
        Option::None => RUNTIME_ERR_EXPECTED_NUM,
    }
}

/// `>=` requires both operands to resolve to plain numbers; the result
/// is the canonical boolean symbol.
pub fn __av_gte(env: &Environment, a: u64, b: u64) -> (r: u64)
    ensures
        spec_arith_operands(env, a, b) matches Option::Some((fa, fb)) ==> r == spec_repr_bool(
            !spec_num_lt(fa, fb),
        ),
        spec_arith_operands(env, a, b) is None ==> r == RUNTIME_ERR_EXPECTED_NUM,
{
    match arith_operands(env, a, b) {
        Option::Some((fa, fb)) => __repr_bool(!num_lt(fa, fb)),
        Option::None => RUNTIME_ERR_EXPECTED_NUM,
    }
}

/// `<` requires both operands to resolve to plain numbers; the result
/// is the canonical boolean symbol.
pub fn __av_lt(env: &Environment, a: u64, b: u64) -> (r: u64)
    ensures
        spec_arith_operands(env, a, b) matches Option::Some((fa, fb)) ==> r == spec_repr_bool(
            spec_num_lt(fa, fb),
        ),
        spec_arith_operands(env, a, b) is None ==> r == RUNTIME_ERR_EXPECTED_NUM,
{
    match arith_operands(env, a, b) {
        Option::Some((fa, fb)) => __repr_bool(num_lt(fa, fb)),
        Option::None => RUNTIME_ERR_EXPECTED_NUM,
    }
}

/// `<=` requires both operands to resolve to plain numbers; the result
/// is the canonical boolean symbol.
pub fn __av_lte(env: &Environment, a: u64, b: u64) -> (r: u64)
    ensures
        spec_arith_operands(env, a, b) matches Option::Some((fa, fb)) ==> r == spec_repr_bool(
            !spec_num_lt(fb, fa),
        ),
        spec_arith_operands(env, a, b) is None ==> r == RUNTIME_ERR_EXPECTED_NUM,
{
    match arith_operands(env, a, b) {
        Option::Some((fa, fb)) => __repr_bool(!num_lt(fb, fa)),
        Option::None => RUNTIME_ERR_EXPECTED_NUM,
    }
}

} // verus!
