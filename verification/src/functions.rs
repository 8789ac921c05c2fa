//! Native numeric functions and the arity-checked call path.
//!
//! Every native rejects NaN-bearing operands before touching the
//! floating-point primitive. Absolute value, minimum and maximum are
//! decided on the bit patterns; the rounding family and square root are
//! delegated to the host's floating-point unit.
use vstd::prelude::*;

use crate::constants::{F64_MAGNITUDE_MASK, RUNTIME_ERR_EXPECTED_NUM, RUNTIME_ERR_FN_ARITY, RUNTIME_ERR_FN_UNK};
use crate::operators::{fpu_ok, num_lt, spec_num_lt};
use crate::structs::{Fn1Kind, Fn2Kind, NativeFn, NumOp};
use crate::types::{is_number, spec_is_nan};

verus! {

/// What a one-argument native returns: an error on NaN, the cleared
/// sign bit for `abs`, and the unit's answer for the rounding family
/// and square root.
pub open spec fn spec_fn1_result<F: Fn(NumOp, u64, u64) -> u64>(
    fpu: F,
    kind: Fn1Kind,
    a: u64,
    r: u64,
) -> bool {
    if spec_is_nan(a) {
        r == RUNTIME_ERR_EXPECTED_NUM
    } else {
        match kind {
            Fn1Kind::Abs => r == (a & F64_MAGNITUDE_MASK),
            Fn1Kind::Ceil => call_ensures(fpu, (NumOp::Ceil, a, 0), r),
            Fn1Kind::Floor => call_ensures(fpu, (NumOp::Floor, a, 0), r),
            Fn1Kind::Trunc => call_ensures(fpu, (NumOp::Trunc, a, 0), r),
            Fn1Kind::Round => call_ensures(fpu, (NumOp::Round, a, 0), r),
            Fn1Kind::Sqrt => call_ensures(fpu, (NumOp::Sqrt, a, 0), r),
        }
    }
}

/// What a two-argument native returns: an error on NaN, else the
/// smaller or larger operand by the numeric order.
pub open spec fn spec_fn2_result(kind: Fn2Kind, a: u64, b: u64, r: u64) -> bool {
    if spec_is_nan(a) || spec_is_nan(b) {
        r == RUNTIME_ERR_EXPECTED_NUM
    } else {
        match kind {
            Fn2Kind::Min => r == (if spec_num_lt(b, a) {
                b
            } else {
                a
            }),
            Fn2Kind::Max => r == (if spec_num_lt(a, b) {
                b
            } else {
                a
            }),
        }
    }
}

/// The smaller of two plain numbers.
pub fn __av_min(a: u64, b: u64) -> (r: u64)
    ensures
        spec_fn2_result(Fn2Kind::Min, a, b, r),
{
    if !is_number(a) || !is_number(b) {
        return RUNTIME_ERR_EXPECTED_NUM;
    }
    if num_lt(b, a) {
        b
    } else {
        a
    }
}

/// The larger of two plain numbers.
pub fn __av_max(a: u64, b: u64) -> (r: u64)
    ensures
        spec_fn2_result(Fn2Kind::Max, a, b, r),
{
    if !is_number(a) || !is_number(b) {
        return RUNTIME_ERR_EXPECTED_NUM;
    }
    if num_lt(a, b) {
        b
    } else {
        a
    }
}

/// Absolute value of a plain number: the sign bit cleared, which is the
/// IEEE-754 `abs` on the bit pattern.
pub fn __av_abs(a: u64) -> (r: u64)
    ensures
        spec_is_nan(a) ==> r == RUNTIME_ERR_EXPECTED_NUM,
        !spec_is_nan(a) ==> r == (a & F64_MAGNITUDE_MASK),
{
    if !is_number(a) {
        return RUNTIME_ERR_EXPECTED_NUM;
    }
    a & F64_MAGNITUDE_MASK
}

/// Ceiling of a plain number, through the unit.
pub fn __av_ceil<F: Fn(NumOp, u64, u64) -> u64>(a: u64, fpu: &F) -> (r: u64)
    requires
        fpu_ok(*fpu),
    ensures
        spec_fn1_result(*fpu, Fn1Kind::Ceil, a, r),
{
    if !is_number(a) {
        return RUNTIME_ERR_EXPECTED_NUM;
    }
    fpu(NumOp::Ceil, a, 0)
}

/// Floor of a plain number, through the unit.
pub fn __av_floor<F: Fn(NumOp, u64, u64) -> u64>(a: u64, fpu: &F) -> (r: u64)
    requires
        fpu_ok(*fpu),
    ensures
        spec_fn1_result(*fpu, Fn1Kind::Floor, a, r),
{
    if !is_number(a) {
        return RUNTIME_ERR_EXPECTED_NUM;
    }
    fpu(NumOp::Floor, a, 0)
}

/// Integer part of a plain number, through the unit.
pub fn __av_truncate<F: Fn(NumOp, u64, u64) -> u64>(a: u64, fpu: &F) -> (r: u64)
    requires
        fpu_ok(*fpu),
    ensures
        spec_fn1_result(*fpu, Fn1Kind::Trunc, a, r),
{
    if !is_number(a) {
        return RUNTIME_ERR_EXPECTED_NUM;
    }
    fpu(NumOp::Trunc, a, 0)
}

/// Nearest integer to a plain number, through the unit.
pub fn __av_round<F: Fn(NumOp, u64, u64) -> u64>(a: u64, fpu: &F) -> (r: u64)
    requires
        fpu_ok(*fpu),
    ensures
        spec_fn1_result(*fpu, Fn1Kind::Round, a, r),
{
    if !is_number(a) {
        return RUNTIME_ERR_EXPECTED_NUM;
    }
    fpu(NumOp::Round, a, 0)
}

/// Square root of a plain number, through the unit. A negative operand
/// yields the unit's NaN, which is representable and surfaces as a
/// later type error rather than a crash.
pub fn __av_sqrt<F: Fn(NumOp, u64, u64) -> u64>(a: u64, fpu: &F) -> (r: u64)
    requires
        fpu_ok(*fpu),
    ensures
        spec_fn1_result(*fpu, Fn1Kind::Sqrt, a, r),
{
    if !is_number(a) {
        return RUNTIME_ERR_EXPECTED_NUM;
    }
    fpu(NumOp::Sqrt, a, 0)
}

/// What calling a native function returns: an arity error when the
/// argument count does not match the function's fixed arity, else the
/// per-function result.
pub open spec fn spec_call_result<F: Fn(NumOp, u64, u64) -> u64>(
    fpu: F,
    func: NativeFn,
    args: Seq<u64>,
    r: u64,
) -> bool {
    match func {
        NativeFn::Fn1(nf) => {
            if args.len() == 1 {
                spec_fn1_result(fpu, nf.func, args[0], r)
            } else {
                r == RUNTIME_ERR_FN_ARITY
            }
        },
        NativeFn::Fn2(nf) => {
            if args.len() == 2 {
                spec_fn2_result(nf.func, args[0], args[1], r)
            } else {
                r == RUNTIME_ERR_FN_ARITY
            }
        },
        NativeFn::Fn3(_) => {
            if args.len() == 3 {
                r == RUNTIME_ERR_FN_UNK
            } else {
                r == RUNTIME_ERR_FN_ARITY
            }
        },
    }
}

/// Call a native function with an argument list, checking the count
/// against the function's fixed arity first.
pub fn call_function<F: Fn(NumOp, u64, u64) -> u64>(
    func: &NativeFn,
    args: &Vec<u64>,
    fpu: &F,
) -> (r: u64)
    requires
        fpu_ok(*fpu),
    ensures
        spec_call_result(*fpu, *func, args@, r),
{
    match func {
        NativeFn::Fn1(nf) => {
            if args.len() != 1 {
                return RUNTIME_ERR_FN_ARITY;
            }
            let a = args[0];
            match nf.func {
                Fn1Kind::Abs => __av_abs(a),
                Fn1Kind::Ceil => __av_ceil(a, fpu),
                Fn1Kind::Floor => __av_floor(a, fpu),
                Fn1Kind::Trunc => __av_truncate(a, fpu),
                Fn1Kind::Round => __av_round(a, fpu),
                Fn1Kind::Sqrt => __av_sqrt(a, fpu),
            }
        },
        NativeFn::Fn2(nf) => {
            if args.len() != 2 {
                return RUNTIME_ERR_FN_ARITY;
            }
            let a = args[0];
            let b = args[1];
            match nf.func {
                Fn2Kind::Min => __av_min(a, b),
                Fn2Kind::Max => __av_max(a, b),
            }
        },
        NativeFn::Fn3(_) => {
            if args.len() != 3 {
                return RUNTIME_ERR_FN_ARITY;
            }
            // No three-argument built-in is registered.
            RUNTIME_ERR_FN_UNK
        },
    }
}

} // verus!
