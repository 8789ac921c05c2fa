//! Dependency-ordered, single-pass evaluation of a cell graph.
//!
//! Cells with no unmet dependencies form the initial ready set; each
//! evaluated cell releases its dependents, first in first out, so the
//! order is deterministic for a fixed graph. Cells still waiting when
//! the ready set runs dry are an unresolved dependency cycle.
use vstd::prelude::*;
use vstd::std_specs::vec::vec_index_mut;

use crate::constants::{
    INTERPRETER_ERR, RUNTIME_ERR_CIRCULAR_DEP, RUNTIME_ERR_DIV_Z, RUNTIME_ERR_EXPECTED_NUM,
    RUNTIME_ERR_EXPECTED_STR, RUNTIME_ERR_MEMORY_ACCESS, SYMBOL_ID_NOT,
};
use crate::environment::{spec_minted, Environment};
use crate::expression::{duplicate_atoms, Expression};
use crate::operators::{
    fpu_ok, spec_add_case, spec_arith_operands, spec_num_lt, AddCase, __av_add, __av_and, __av_div,
    __av_gt, __av_gte, __av_lt, __av_lte, __av_mul, __av_not, __av_or, __av_sub,
};
use crate::runtime::{keyword_operation, spec_keyword_operation};
use crate::structs::{Atom, AtomView, BinOp, Identifier, NumOp};
use crate::types::{is_error, spec_is_error, spec_is_truthy, spec_repr_bool};
use crate::utils::{create_value_symbol, spec_create_pointer_symbol, spec_create_value_symbol};

verus! {

broadcast use vstd::seq_lib::lemma_seq_contains_after_push;

/// What one binary operation leaves behind: for every operator except
/// `+` the scope is untouched and the result is the operator's exact
/// answer over the resolved operands (or the unit's answer, tied to its
/// postcondition, for arithmetic); `+` may additionally bind a fresh
/// concatenated string into the scope.
pub open spec fn spec_apply_rel<F: Fn(NumOp, u64, u64) -> u64>(
    fpu: F,
    env0: Environment,
    op: BinOp,
    a: u64,
    b: u64,
    env1: Environment,
    v: u64,
) -> bool {
    match op {
        BinOp::And => env1 == env0 && v == spec_repr_bool(
            spec_is_truthy(a) && spec_is_truthy(b),
        ),
        BinOp::Or => env1 == env0 && v == spec_repr_bool(spec_is_truthy(a) || spec_is_truthy(b)),
        BinOp::Lt => env1 == env0 && (match spec_arith_operands(&env0, a, b) {
            Option::Some((fa, fb)) => v == spec_repr_bool(spec_num_lt(fa, fb)),
            Option::None => v == RUNTIME_ERR_EXPECTED_NUM,
        }),
        BinOp::Lte => env1 == env0 && (match spec_arith_operands(&env0, a, b) {
            Option::Some((fa, fb)) => v == spec_repr_bool(!spec_num_lt(fb, fa)),
            Option::None => v == RUNTIME_ERR_EXPECTED_NUM,
        }),
        BinOp::Gt => env1 == env0 && (match spec_arith_operands(&env0, a, b) {
            Option::Some((fa, fb)) => v == spec_repr_bool(spec_num_lt(fb, fa)),
            Option::None => v == RUNTIME_ERR_EXPECTED_NUM,
        }),
        BinOp::Gte => env1 == env0 && (match spec_arith_operands(&env0, a, b) {
            Option::Some((fa, fb)) => v == spec_repr_bool(!spec_num_lt(fa, fb)),
            Option::None => v == RUNTIME_ERR_EXPECTED_NUM,
        }),
        BinOp::Sub => env1 == env0 && (match spec_arith_operands(&env0, a, b) {
            Option::Some((fa, fb)) => call_ensures(fpu, (NumOp::Sub, fa, fb), v),
            Option::None => v == RUNTIME_ERR_EXPECTED_NUM,
        }),
        BinOp::Mul => env1 == env0 && (match spec_arith_operands(&env0, a, b) {
            Option::Some((fa, fb)) => call_ensures(fpu, (NumOp::Mul, fa, fb), v),
            Option::None => v == RUNTIME_ERR_EXPECTED_NUM,
        }),
        BinOp::Div => env1 == env0 && (match spec_arith_operands(&env0, a, b) {
            Option::Some((fa, fb)) => if (fb & crate::constants::F64_MAGNITUDE_MASK) == 0 {
                v == RUNTIME_ERR_DIV_Z
            } else {
                call_ensures(fpu, (NumOp::Div, fa, fb), v)
            },
            Option::None => v == RUNTIME_ERR_EXPECTED_NUM,
        }),
        BinOp::Add => match spec_add_case(&env0, a, b) {
            AddCase::Numbers(fa, fb) => env1 == env0 && call_ensures(
                fpu,
                (NumOp::Add, fa, fb),
                v,
            ),
            AddCase::Strings(sa, sb) => spec_minted(env0, env1, v, AtomView::Str(sa + sb)),
            AddCase::ExpectedNumber => env1 == env0 && v == RUNTIME_ERR_EXPECTED_NUM,
            AddCase::ExpectedString => env1 == env0 && v == RUNTIME_ERR_EXPECTED_STR,
        },
    }
}

/// Apply a reserved binary operation to two operand words. Only `+` can
/// touch the scope, by binding a concatenated string into it.
fn apply_operation<F: Fn(NumOp, u64, u64) -> u64>(
    env: &mut Environment,
    op: BinOp,
    a: u64,
    b: u64,
    fpu: &F,
) -> (r: u64)
    requires
        fpu_ok(*fpu),
        old(env).next_symbol_id < u64::MAX,
    ensures
        spec_apply_rel(*fpu, *old(env), op, a, b, *final(env), r),
        final(env).parent == old(env).parent,
        final(env).body == old(env).body,
        final(env).normname_symbols == old(env).normname_symbols,
        final(env).next_symbol_id >= old(env).next_symbol_id,
        forall|s: u64|
            old(env).ids().contains_key(s) ==> final(env).ids().contains_key(s),
{
    match op {
        BinOp::Or => __av_or(a, b),
        BinOp::And => __av_and(a, b),
        BinOp::Lt => __av_lt(env, a, b),
        BinOp::Lte => __av_lte(env, a, b),
        BinOp::Gt => __av_gt(env, a, b),
        BinOp::Gte => __av_gte(env, a, b),
        BinOp::Add => __av_add(env, a, b, fpu),
        BinOp::Sub => __av_sub(env, a, b, fpu),
        BinOp::Mul => __av_mul(env, a, b, fpu),
        BinOp::Div => __av_div(env, a, b, fpu),
    }
}

/// The whole meaning of reducing a token stream against a scope,
/// related step by step: operands push a word (strings, objects and
/// functions are first materialized in the scope under a fresh pointer
/// symbol), a reserved operator symbol pops its two operands and pushes
/// the operation's result as `spec_apply_rel` fixes it, the unary `not`
/// pops one, and any error word — a failing operand or a failing
/// operation — ends evaluation at once with that error, as does a
/// malformed stream or an exhausted symbol counter. A finished stream
/// yields the single word left on the stack, or the interpreter error.
pub open spec fn spec_eval_rel<F: Fn(NumOp, u64, u64) -> u64>(
    fpu: F,
    env0: Environment,
    stack: Seq<u64>,
    tokens: Seq<Atom>,
    env1: Environment,
    r: u64,
) -> bool
    decreases tokens.len(),
{
    if tokens.len() == 0 {
        env1 == env0 && r == (if stack.len() == 1 {
            stack[0]
        } else {
            INTERPRETER_ERR
        })
    } else {
        match tokens[0] {
            Atom::NumericValue(n) => spec_eval_rel(
                fpu,
                env0,
                stack.push(n),
                tokens.drop_first(),
                env1,
                r,
            ),
            Atom::SymbolValue(sym) => match spec_keyword_operation(sym) {
                Option::Some(op) => {
                    if stack.len() < 2 {
                        env1 == env0 && r == INTERPRETER_ERR
                    } else {
                        let b = stack.last();
                        let a = stack.drop_last().last();
                        let rest = stack.drop_last().drop_last();
                        if spec_is_error(a) {
                            env1 == env0 && r == a
                        } else if spec_is_error(b) {
                            env1 == env0 && r == b
                        } else if env0.next_symbol_id == u64::MAX {
                            env1 == env0 && r == RUNTIME_ERR_MEMORY_ACCESS
                        } else {
                            exists|env2: Environment, v: u64|
                                {
                                    &&& #[trigger] spec_apply_rel(fpu, env0, op, a, b, env2, v)
                                    &&& if spec_is_error(v) {
                                        env1 == env2 && r == v
                                    } else {
                                        spec_eval_rel(
                                            fpu,
                                            env2,
                                            rest.push(v),
                                            tokens.drop_first(),
                                            env1,
                                            r,
                                        )
                                    }
                                }
                        }
                    }
                },
                Option::None => {
                    if sym == spec_create_value_symbol(SYMBOL_ID_NOT) {
                        if stack.len() < 1 {
                            env1 == env0 && r == INTERPRETER_ERR
                        } else if spec_is_error(stack.last()) {
                            env1 == env0 && r == stack.last()
                        } else {
                            spec_eval_rel(
                                fpu,
                                env0,
                                stack.drop_last().push(
                                    spec_repr_bool(!spec_is_truthy(stack.last())),
                                ),
                                tokens.drop_first(),
                                env1,
                                r,
                            )
                        }
                    } else {
                        // Keywords and plain symbols evaluate to
                        // themselves as operands.
                        spec_eval_rel(fpu, env0, stack.push(sym), tokens.drop_first(), env1, r)
                    }
                },
            },
            _ => {
                if env0.next_symbol_id == u64::MAX {
                    env1 == env0 && r == RUNTIME_ERR_MEMORY_ACCESS
                } else {
                    exists|env2: Environment|
                        {
                            &&& #[trigger] spec_minted(
                                env0,
                                env2,
                                spec_create_pointer_symbol(env0.next_symbol_id),
                                tokens[0]@,
                            )
                            &&& spec_eval_rel(
                                fpu,
                                env2,
                                stack.push(spec_create_pointer_symbol(env0.next_symbol_id)),
                                tokens.drop_first(),
                                env1,
                                r,
                            )
                        }
                }
            },
        }
    }
}

/// Reduce a cell's parsed token stream against the scope, stack-wise.
/// The result and the scope's change are exactly what `spec_eval_rel`
/// relates them to; besides that, the scope only grows: names, the
/// program body and the parent are untouched, and existing bindings
/// stay present.
pub fn eval_tokens<F: Fn(NumOp, u64, u64) -> u64>(
    env: &mut Environment,
    tokens: &Vec<Atom>,
    fpu: &F,
) -> (r: u64)
    requires
        fpu_ok(*fpu),
    ensures
        spec_eval_rel(*fpu, *old(env), Seq::<u64>::empty(), tokens@, *final(env), r),
        final(env).parent == old(env).parent,
        final(env).body == old(env).body,
        final(env).normname_symbols == old(env).normname_symbols,
        final(env).next_symbol_id >= old(env).next_symbol_id,
        forall|s: u64|
            old(env).ids().contains_key(s) ==> final(env).ids().contains_key(s),
{
    let mut stack: Vec<u64> = Vec::new();
    let not_symbol = create_value_symbol(SYMBOL_ID_NOT);
    let mut i: usize = 0;
    proof {
        assert(tokens@.skip(0) =~= tokens@);
    }
    while i < tokens.len()
        invariant
            fpu_ok(*fpu),
            i <= tokens@.len(),
            env.parent == old(env).parent,
            env.body == old(env).body,
            env.normname_symbols == old(env).normname_symbols,
            env.next_symbol_id >= old(env).next_symbol_id,
            forall|s: u64|
                old(env).ids().contains_key(s) ==> env.ids().contains_key(s),
            not_symbol == spec_create_value_symbol(SYMBOL_ID_NOT),
            forall|env1: Environment, r1: u64|
                #[trigger] spec_eval_rel(*fpu, *env, stack@, tokens@.skip(i as int), env1, r1)
                    ==> spec_eval_rel(*fpu, *old(env), Seq::<u64>::empty(), tokens@, env1, r1),
        decreases tokens@.len() - i,
    {
        let ghost pre_env = *env;
        let ghost pre_stack = stack@;
        let ghost rem = tokens@.skip(i as int);
        proof {
            assert(rem[0] == tokens@[i as int]);
            assert(rem.drop_first() =~= tokens@.skip(i + 1 as int));
        }
        let token = &tokens[i];
        match token {
            Atom::NumericValue(n) => {
                stack.push(*n);
                proof {
                    assert forall|env1: Environment, r1: u64|
                        #[trigger] spec_eval_rel(
                            *fpu,
                            *env,
                            stack@,
                            tokens@.skip(i + 1 as int),
                            env1,
                            r1,
                        ) implies spec_eval_rel(
                        *fpu,
                        *old(env),
                        Seq::<u64>::empty(),
                        tokens@,
                        env1,
                        r1,
                    ) by {
                        assert(spec_eval_rel(*fpu, pre_env, pre_stack, rem, env1, r1));
                    }
                }
            },
            Atom::SymbolValue(s) => {
                let s = *s;
                match keyword_operation(s) {
                    Option::Some(op) => {
                        if stack.len() < 2 {
                            // Malformed stream: an operator without its
                            // two operands.
                            proof {
                                assert(spec_eval_rel(
                                    *fpu,
                                    pre_env,
                                    pre_stack,
                                    rem,
                                    *env,
                                    INTERPRETER_ERR,
                                ));
                            }
                            return INTERPRETER_ERR;
                        }
                        let b = stack.pop().unwrap();
                        let a = stack.pop().unwrap();
                        proof {
                            assert(b == pre_stack.last());
                            assert(a == pre_stack.drop_last().last());
                            assert(stack@ =~= pre_stack.drop_last().drop_last());
                        }
                        if is_error(a) {
                            // Propagate the first failing operand.
                            proof {
                                assert(spec_eval_rel(*fpu, pre_env, pre_stack, rem, *env, a));
                            }
                            return a;
                        }
                        if is_error(b) {
                            proof {
                                assert(spec_eval_rel(*fpu, pre_env, pre_stack, rem, *env, b));
                            }
                            return b;
                        }
                        if env.next_symbol_id == u64::MAX {
                            proof {
                                assert(spec_eval_rel(
                                    *fpu,
                                    pre_env,
                                    pre_stack,
                                    rem,
                                    *env,
                                    RUNTIME_ERR_MEMORY_ACCESS,
                                ));
                            }
                            return RUNTIME_ERR_MEMORY_ACCESS;
                        }
                        let v = apply_operation(env, op, a, b, fpu);
                        if is_error(v) {
                            proof {
                                assert(spec_apply_rel(*fpu, pre_env, op, a, b, *env, v));
                                assert(spec_eval_rel(*fpu, pre_env, pre_stack, rem, *env, v));
                            }
                            return v;
                        }
                        stack.push(v);
                        proof {
                            assert forall|env1: Environment, r1: u64|
                                #[trigger] spec_eval_rel(
                                    *fpu,
                                    *env,
                                    stack@,
                                    tokens@.skip(i + 1 as int),
                                    env1,
                                    r1,
                                ) implies spec_eval_rel(
                                *fpu,
                                *old(env),
                                Seq::<u64>::empty(),
                                tokens@,
                                env1,
                                r1,
                            ) by {
                                assert(spec_apply_rel(*fpu, pre_env, op, a, b, *env, v));
                                assert(spec_eval_rel(*fpu, pre_env, pre_stack, rem, env1, r1));
                            }
                        }
                    },
                    Option::None => {
                        if s == not_symbol {
                            if stack.len() < 1 {
                                proof {
                                    assert(spec_eval_rel(
                                        *fpu,
                                        pre_env,
                                        pre_stack,
                                        rem,
                                        *env,
                                        INTERPRETER_ERR,
                                    ));
                                }
                                return INTERPRETER_ERR;
                            }
                            let a = stack.pop().unwrap();
                            proof {
                                assert(a == pre_stack.last());
                                assert(stack@ =~= pre_stack.drop_last());
                            }
                            if is_error(a) {
                                proof {
                                    assert(spec_eval_rel(*fpu, pre_env, pre_stack, rem, *env, a));
                                }
                                return a;
                            }
                            stack.push(__av_not(a));
                            proof {
                                assert forall|env1: Environment, r1: u64|
                                    #[trigger] spec_eval_rel(
                                        *fpu,
                                        *env,
                                        stack@,
                                        tokens@.skip(i + 1 as int),
                                        env1,
                                        r1,
                                    ) implies spec_eval_rel(
                                    *fpu,
                                    *old(env),
                                    Seq::<u64>::empty(),
                                    tokens@,
                                    env1,
                                    r1,
                                ) by {
                                    assert(spec_eval_rel(*fpu, pre_env, pre_stack, rem, env1, r1));
                                }
                            }
                        } else {
                            // Keywords and plain symbols evaluate to
                            // themselves as operands.
                            stack.push(s);
                            proof {
                                assert forall|env1: Environment, r1: u64|
                                    #[trigger] spec_eval_rel(
                                        *fpu,
                                        *env,
                                        stack@,
                                        tokens@.skip(i + 1 as int),
                                        env1,
                                        r1,
                                    ) implies spec_eval_rel(
                                    *fpu,
                                    *old(env),
                                    Seq::<u64>::empty(),
                                    tokens@,
                                    env1,
                                    r1,
                                ) by {
                                    assert(spec_eval_rel(*fpu, pre_env, pre_stack, rem, env1, r1));
                                }
                            }
                        }
                    },
                }
            },
            _ => {
                // A string, object or function operand is materialized
                // in the scope and pushed as a fresh pointer symbol.
                if env.next_symbol_id == u64::MAX {
                    proof {
                        assert(spec_eval_rel(
                            *fpu,
                            pre_env,
                            pre_stack,
                            rem,
                            *env,
                            RUNTIME_ERR_MEMORY_ACCESS,
                        ));
                    }
                    return RUNTIME_ERR_MEMORY_ACCESS;
                }
                let sym = env.init_value(token.duplicate());
                stack.push(sym);
                proof {
                    assert(spec_minted(pre_env, *env, sym, tokens@[i as int]@));
                    assert forall|env1: Environment, r1: u64|
                        #[trigger] spec_eval_rel(
                            *fpu,
                            *env,
                            stack@,
                            tokens@.skip(i + 1 as int),
                            env1,
                            r1,
                        ) implies spec_eval_rel(
                        *fpu,
                        *old(env),
                        Seq::<u64>::empty(),
                        tokens@,
                        env1,
                        r1,
                    ) by {
                        assert(spec_eval_rel(*fpu, pre_env, pre_stack, rem, env1, r1));
                    }
                }
            },
        }
        i = i + 1;
    }
    proof {
        assert(tokens@.skip(tokens@.len() as int) =~= Seq::<Atom>::empty());
    }
    if stack.len() == 1 {
        let out = stack[0];
        proof {
            assert(spec_eval_rel(
                *fpu,
                *env,
                stack@,
                tokens@.skip(tokens@.len() as int),
                *env,
                out,
            ));
        }
        out
    } else {
        // A malformed stream left nothing, or extra operands.
        proof {
            assert(spec_eval_rel(
                *fpu,
                *env,
                stack@,
                tokens@.skip(tokens@.len() as int),
                *env,
                INTERPRETER_ERR,
            ));
        }
        INTERPRETER_ERR
    }
}

/// How many of the listed dependencies are not yet satisfied: the count
/// of entries, with multiplicity, whose id is not among the processed
/// ids.
pub open spec fn spec_unmet(deps: Seq<u64>, processed: Seq<u64>) -> int
    decreases deps.len(),
{
    if deps.len() == 0 {
        0
    } else {
        spec_unmet(deps.drop_last(), processed) + (if processed.contains(deps.last()) {
            0int
        } else {
            1int
        })
    }
}

/// The unmet count is bounded by the list's length, and is zero exactly
/// when every listed dependency is among the processed ids.
pub proof fn lemma_unmet_zero(deps: Seq<u64>, processed: Seq<u64>)
    ensures
        0 <= spec_unmet(deps, processed) <= deps.len(),
        (spec_unmet(deps, processed) == 0) <==> (forall|k: int|
            0 <= k < deps.len() ==> processed.contains(#[trigger] deps[k])),
    decreases deps.len(),
{
    if deps.len() > 0 {
        lemma_unmet_zero(deps.drop_last(), processed);
        assert(deps.last() == deps[deps.len() - 1]);
        assert(forall|k: int| 0 <= k < deps.len() - 1 ==> deps.drop_last()[k] == deps[k]);
    }
}

/// Once satisfied, a dependency list stays satisfied as more cells are
/// processed.
pub proof fn lemma_unmet_zero_push(deps: Seq<u64>, processed: Seq<u64>, id: u64)
    requires
        spec_unmet(deps, processed) == 0,
    ensures
        spec_unmet(deps, processed.push(id)) == 0,
{
    lemma_unmet_zero(deps, processed);
    lemma_unmet_zero(deps, processed.push(id));
    assert forall|k: int| 0 <= k < deps.len() implies processed.push(id).contains(
        #[trigger] deps[k],
    ) by {
        assert(processed.contains(deps[k]));
        let w = choose|w: int| 0 <= w < processed.len() && processed[w] == deps[k];
        assert(processed.push(id)[w] == deps[k]);
    }
}

/// Count the dependencies whose ids are not among the processed ids.
fn count_unmet(deps: &Vec<u64>, processed: &Vec<u64>) -> (r: usize)
    ensures
        r == spec_unmet(deps@, processed@),
        r <= deps@.len(),
{
    let mut cnt: usize = 0;
    let mut k: usize = 0;
    while k < deps.len()
        invariant
            k <= deps@.len(),
            cnt == spec_unmet(deps@.take(k as int), processed@),
            cnt <= k,
        decreases deps@.len() - k,
    {
        proof {
            assert(deps@.take(k + 1 as int).drop_last() =~= deps@.take(k as int));
            assert(deps@.take(k + 1 as int).last() == deps@[k as int]);
        }
        if !contains_id(processed, deps[k]) {
            cnt = cnt + 1;
        }
        k = k + 1;
    }
    proof {
        assert(deps@.take(deps@.len() as int) =~= deps@);
    }
    cnt
}

/// A sequence of distinct indices below a bound has at most that many
/// entries.
proof fn lemma_distinct_bounded(q: Seq<usize>, n: int)
    requires
        0 <= n,
        forall|k: int| 0 <= k < q.len() ==> (#[trigger] q[k]) < n,
        forall|k1: int, k2: int| 0 <= k1 < k2 < q.len() ==> q[k1] != q[k2],
    ensures
        q.len() <= n,
{
    broadcast use vstd::seq_lib::seq_to_set_is_finite;

    let m = q.map_values(|x: usize| x as int);
    assert(m.no_duplicates()) by {
        assert forall|k1: int, k2: int|
            0 <= k1 < m.len() && 0 <= k2 < m.len() && k1 != k2 implies m[k1] != m[k2] by {
            if k1 < k2 {
                assert(q[k1] != q[k2]);
            } else {
                assert(q[k2] != q[k1]);
            }
        }
    }
    m.unique_seq_to_set();
    assert(m.to_set().subset_of(vstd::set_lib::set_int_range(0, n))) by {
        assert forall|x: int| m.to_set().contains(x) implies vstd::set_lib::set_int_range(
            0,
            n,
        ).contains(x) by {
            let k = choose|k: int| 0 <= k < m.len() && m[k] == x;
            assert(q[k] < n);
        }
    }
    vstd::set_lib::lemma_int_range(0, n);
    vstd::set_lib::lemma_len_subset(m.to_set(), vstd::set_lib::set_int_range(0, n));
}

/// A sequence of indices that covers every index below a bound has at
/// least that many entries.
proof fn lemma_covering_len(q: Seq<usize>, n: int)
    requires
        0 <= n <= usize::MAX,
        forall|j: int| 0 <= j < n ==> q.contains(#[trigger] (j as usize)),
    ensures
        q.len() >= n,
{
    broadcast use vstd::seq_lib::seq_to_set_is_finite;

    let m = q.map_values(|x: usize| x as int);
    assert(vstd::set_lib::set_int_range(0, n).subset_of(m.to_set())) by {
        assert forall|x: int| vstd::set_lib::set_int_range(0, n).contains(x) implies m.to_set()
            .contains(x) by {
            assert(q.contains(x as usize));
            let k = choose|k: int| 0 <= k < q.len() && q[k] == x as usize;
            assert(m[k] == x);
            assert(m.contains(x));
        }
    }
    vstd::set_lib::lemma_int_range(0, n);
    vstd::set_lib::lemma_len_subset(vstd::set_lib::set_int_range(0, n), m.to_set());
    m.lemma_cardinality_of_set();
}

/// Whether an id occurs in a list of ids.
fn contains_id(v: &Vec<u64>, x: u64) -> (r: bool)
    ensures
        r == v@.contains(x),
{
    let mut i: usize = 0;
    while i < v.len()
        invariant
            i <= v@.len(),
            forall|j: int| 0 <= j < i ==> v@[j] != x,
        decreases v@.len() - i,
    {
        if v[i] == x {
            return true;
        }
        i = i + 1;
    }
    proof {
        assert(!v@.contains(x));
    }
    false
}

/// Whether the cells carry pairwise distinct ids.
pub open spec fn spec_distinct_ids(cells: Seq<Expression>) -> bool {
    forall|i: int, j: int| 0 <= i < j < cells.len() ==> cells[i].cell_id != cells[j].cell_id
}

/// Whether every listed dependency names a cell of the graph.
pub open spec fn spec_closed_graph(cells: Seq<Expression>) -> bool {
    forall|i: int, k: int|
        0 <= i < cells.len() && 0 <= k < cells[i].depends_on@.len() ==> exists|j: int|
            0 <= j < cells.len() && cells[j].cell_id == #[trigger] cells[i].depends_on@[k]
}

/// Whether some cell of the graph carries this id.
pub open spec fn spec_has_id(o: Seq<Expression>, id: u64) -> bool {
    exists|i: int| 0 <= i < o.len() && (#[trigger] o[i].cell_id) == id
}

/// The graph data of a cell that scheduling never touches.
pub open spec fn spec_same_cell_core(c: Expression, o: Expression) -> bool {
    &&& c.cell_id == o.cell_id
    &&& c.symbol == o.symbol
    &&& c.input == o.input
    &&& c.parsed == o.parsed
    &&& c.depends_on == o.depends_on
}

/// Whether index `j` lies in the evaluated prefix of the ready queue.
pub open spec fn spec_in_prefix(q: Seq<usize>, head: int, j: int) -> bool {
    exists|k: int| 0 <= k < head && q[k] == j
}

/// Appending to the queue beyond the evaluated prefix does not change
/// the prefix.
proof fn lemma_prefix_push(q: Seq<usize>, x: usize, head: int, j: int)
    requires
        0 <= head <= q.len(),
    ensures
        spec_in_prefix(q.push(x), head, j) == spec_in_prefix(q, head, j),
{
    if spec_in_prefix(q.push(x), head, j) {
        let k = choose|k: int| 0 <= k < head && q.push(x)[k] == j;
        assert(q[k] == j);
    }
    if spec_in_prefix(q, head, j) {
        let k = choose|k: int| 0 <= k < head && q[k] == j;
        assert(q.push(x)[k] == j);
    }
}

/// At a successful exit — every counter at zero — the processed list
/// covers every cell id; with distinct ids it is moreover a
/// dependency-respecting permutation.
proof fn lemma_scheduler_ok(o: Seq<Expression>, c: Seq<Expression>, q: Seq<usize>, p: Seq<u64>)
    requires
        o.len() <= usize::MAX,
        o.len() == c.len(),
        p.len() == q.len(),
        forall|k: int| 0 <= k < q.len() ==> (#[trigger] q[k]) < o.len(),
        forall|k1: int, k2: int| 0 <= k1 < k2 < q.len() ==> q[k1] != q[k2],
        forall|k: int| 0 <= k < p.len() ==> p[k] == o[(#[trigger] q[k]) as int].cell_id,
        forall|j: int|
            0 <= j < o.len() ==> (q.contains(j as usize) <==> spec_unmet(
                (#[trigger] o[j]).depends_on@,
                p,
            ) == 0),
        forall|k: int, d: u64|
            #![trigger o[q[k] as int].depends_on@.contains(d)]
            0 <= k < p.len() && o[q[k] as int].depends_on@.contains(d) ==> p.take(k).contains(d),
        forall|j: int| 0 <= j < o.len() ==> (#[trigger] c[j]).unmet_depend_count == 0,
        forall|j: int|
            0 <= j < o.len() ==> (#[trigger] c[j]).unmet_depend_count == spec_unmet(
                o[j].depends_on@,
                p,
            ),
    ensures
        p.len() == o.len(),
        forall|k: int| 0 <= k < p.len() ==> spec_has_id(o, #[trigger] p[k]),
        spec_distinct_ids(o) ==> forall|k1: int, k2: int|
            0 <= k1 < k2 < p.len() ==> p[k1] != p[k2],
        spec_distinct_ids(o) ==> forall|k: int, i: int, d: u64|
            #![trigger p[k], o[i].depends_on@.contains(d)]
            0 <= k < p.len() && 0 <= i < o.len() && o[i].cell_id == p[k]
                && o[i].depends_on@.contains(d) ==> p.subrange(0, k).contains(d),
        forall|j: int| 0 <= j < o.len() ==> spec_in_prefix(q, q.len() as int, j),
{
    let n = o.len() as int;
    assert forall|j4: int| 0 <= j4 < n implies q.contains(#[trigger] (j4 as usize)) by {
        assert(c[j4].unmet_depend_count == 0);
    }
    lemma_covering_len(q, n);
    lemma_distinct_bounded(q, n);
    assert forall|j: int| 0 <= j < n implies spec_in_prefix(q, q.len() as int, j) by {
        assert(q.contains(j as usize));
        let k = choose|k: int| 0 <= k < q.len() && q[k] == j as usize;
    }
    if spec_distinct_ids(o) {
        assert forall|k: int, i: int, d: u64|
            #![trigger p[k], o[i].depends_on@.contains(d)]
            0 <= k < p.len() && 0 <= i < n && o[i].cell_id == p[k] && o[i].depends_on@.contains(
                d,
            ) implies p.subrange(0, k).contains(d) by {
            let q_idx = q[k] as int;
            if i != q_idx {
                if i < q_idx {
                    assert(o[i].cell_id != o[q_idx].cell_id);
                } else {
                    assert(o[q_idx].cell_id != o[i].cell_id);
                }
            }
            assert(i == q_idx);
            assert(p.take(k).contains(d));
            assert(p.take(k) =~= p.subrange(0, k));
        }
        assert forall|k1: int, k2: int| 0 <= k1 < k2 < p.len() implies p[k1] != p[k2] by {
            let q1 = q[k1] as int;
            let q2 = q[k2] as int;
            assert(q[k1] != q[k2]);
            if q1 < q2 {
                assert(o[q1].cell_id != o[q2].cell_id);
            } else {
                assert(o[q2].cell_id != o[q1].cell_id);
            }
        }
    }
    assert forall|k: int| 0 <= k < p.len() implies spec_has_id(o, #[trigger] p[k]) by {
        let i = q[k] as int;
        assert(0 <= i < o.len() && o[i].cell_id == p[k]);
        assert(spec_has_id(o, p[k]));
    }
}

/// At a failed exit of a closed graph, every still-waiting cell
/// depends on another still-waiting cell: the waiting set certifies the
/// cycle.
#[verifier::rlimit(100)]
proof fn lemma_scheduler_err(o: Seq<Expression>, c: Seq<Expression>, q: Seq<usize>, p: Seq<u64>)
    requires
        o.len() <= usize::MAX,
        o.len() == c.len(),
        p.len() == q.len(),
        forall|k: int| 0 <= k < p.len() ==> p[k] == o[(#[trigger] q[k]) as int].cell_id,
        forall|j: int|
            0 <= j < o.len() ==> (q.contains(j as usize) <==> spec_unmet(
                (#[trigger] o[j]).depends_on@,
                p,
            ) == 0),
        forall|j: int|
            0 <= j < o.len() ==> (#[trigger] c[j]).unmet_depend_count == spec_unmet(
                o[j].depends_on@,
                p,
            ),
        spec_closed_graph(o),
    ensures
        forall|i: int|
            0 <= i < o.len() && (#[trigger] c[i]).unmet_depend_count > 0 ==> exists|j: int|
                0 <= j < o.len() && c[j].unmet_depend_count > 0 && o[i].depends_on@.contains(
                    o[j].cell_id,
                ),
{
    let n = o.len() as int;
    assert forall|i: int| 0 <= i < n && (#[trigger] c[i]).unmet_depend_count > 0 implies exists|
    j: int,
    |
        0 <= j < n && c[j].unmet_depend_count > 0 && o[i].depends_on@.contains(o[j].cell_id) by {
        let deps = o[i].depends_on@;
        lemma_unmet_zero(deps, p);
        assert(spec_unmet(deps, p) != 0);
        assert(!(forall|k: int| 0 <= k < deps.len() ==> p.contains(#[trigger] deps[k])));
        let k = choose|k: int| 0 <= k < deps.len() && !p.contains(#[trigger] deps[k]);
        let d = deps[k];
        assert(exists|j: int| 0 <= j < o.len() && o[j].cell_id == #[trigger] o[i].depends_on@[k]);
        let j = choose|j: int| 0 <= j < n && o[j].cell_id == d;
        if c[j].unmet_depend_count == 0 {
            assert(q.contains(j as usize));
            let k2 = choose|k2: int| 0 <= k2 < q.len() && q[k2] == j as usize;
            assert(p[k2] == o[(q[k2]) as int].cell_id);
            assert(p[k2] == d);
            assert(p.contains(d));
            assert(false);
        }
        lemma_unmet_zero(o[j].depends_on@, p);
        assert(deps[k] == d);
        assert(deps.contains(d));
        assert(0 <= j < n && c[j].unmet_depend_count > 0 && o[i].depends_on@.contains(
            o[j].cell_id,
        ));
    }
}

/// Find the cell carrying an id.
fn find_cell(cells: &Vec<Expression>, id: u64) -> (r: Option<usize>)
    ensures
        r matches Option::Some(i) ==> i < cells@.len() && cells@[i as int].cell_id == id,
        r is None ==> forall|i: int| 0 <= i < cells@.len() ==> cells@[i].cell_id != id,
{
    let mut i: usize = 0;
    while i < cells.len()
        invariant
            i <= cells@.len(),
            forall|j: int| 0 <= j < i ==> cells@[j].cell_id != id,
        decreases cells@.len() - i,
    {
        if cells[i].cell_id == id {
            return Option::Some(i);
        }
        i = i + 1;
    }
    Option::None
}

/// Reset every counter to the cell's full dependency count, clear and
/// rebuild the reverse `used_by` edges, and seed the ready queue with
/// the cells that have no dependencies.
fn link_cells(cells: &mut Vec<Expression>) -> (queue: Vec<usize>)
    requires
        forall|i: int|
            0 <= i < old(cells)@.len() ==> (#[trigger] old(cells)@[i]).depends_on@.len()
                <= i32::MAX,
    ensures
        final(cells)@.len() == old(cells)@.len(),
        forall|j: int|
            0 <= j < old(cells)@.len() ==> spec_same_cell_core(
                #[trigger] final(cells)@[j],
                old(cells)@[j],
            ),
        forall|j: int|
            0 <= j < old(cells)@.len() ==> (#[trigger] final(cells)@[j]).result == old(
                cells,
            )@[j].result,
        forall|j: int|
            0 <= j < old(cells)@.len() ==> (#[trigger] final(cells)@[j]).unmet_depend_count
                == spec_unmet(old(cells)@[j].depends_on@, Seq::<u64>::empty()),
        forall|k: int| 0 <= k < queue@.len() ==> (#[trigger] queue@[k]) < old(cells)@.len(),
        forall|k1: int, k2: int| 0 <= k1 < k2 < queue@.len() ==> queue@[k1] != queue@[k2],
        forall|j: int|
            0 <= j < old(cells)@.len() ==> (queue@.contains(j as usize) <==> spec_unmet(
                (#[trigger] old(cells)@[j]).depends_on@,
                Seq::<u64>::empty(),
            ) == 0),
{
    let n = cells.len();
    let empty_ids: Vec<u64> = Vec::new();
    let mut queue: Vec<usize> = Vec::new();
    let mut i: usize = 0;
    while i < n
        invariant
            i <= n,
            n == cells@.len(),
            n == old(cells)@.len(),
            empty_ids@ == Seq::<u64>::empty(),
            forall|j: int|
                0 <= j < n ==> spec_same_cell_core(#[trigger] cells@[j], old(cells)@[j]),
            forall|j: int| 0 <= j < n ==> (#[trigger] cells@[j]).result == old(cells)@[j].result,
            forall|j: int|
                0 <= j < i ==> (#[trigger] cells@[j]).unmet_depend_count == spec_unmet(
                    old(cells)@[j].depends_on@,
                    Seq::<u64>::empty(),
                ),
            forall|j: int|
                0 <= j < n ==> (#[trigger] old(cells)@[j]).depends_on@.len() <= i32::MAX,
            forall|k: int| 0 <= k < queue@.len() ==> (#[trigger] queue@[k]) < i,
            forall|k1: int, k2: int| 0 <= k1 < k2 < queue@.len() ==> queue@[k1] != queue@[k2],
            forall|j: int|
                0 <= j < i ==> (queue@.contains(j as usize) <==> spec_unmet(
                    (#[trigger] old(cells)@[j]).depends_on@,
                    Seq::<u64>::empty(),
                ) == 0),
        decreases n - i,
    {
        let cnt = count_unmet(&cells[i].depends_on, &empty_ids);
        proof {
            lemma_unmet_zero(cells@[i as int].depends_on@, empty_ids@);
        }
        let c = vec_index_mut(cells, i);
        c.unmet_depend_count = cnt as i32;
        c.used_by = Vec::new();
        if cnt == 0 {
            queue.push(i);
        }
        i = i + 1;
    }

    // Record the reverse edges: each cell registers itself with every
    // cell it depends on.
    let mut j: usize = 0;
    while j < n
        invariant
            j <= n,
            n == cells@.len(),
            n == old(cells)@.len(),
            forall|jj: int|
                0 <= jj < n ==> spec_same_cell_core(#[trigger] cells@[jj], old(cells)@[jj]),
            forall|jj: int|
                0 <= jj < n ==> (#[trigger] cells@[jj]).result == old(cells)@[jj].result,
            forall|jj: int|
                0 <= jj < n ==> (#[trigger] cells@[jj]).unmet_depend_count == spec_unmet(
                    old(cells)@[jj].depends_on@,
                    Seq::<u64>::empty(),
                ),
            forall|k: int| 0 <= k < queue@.len() ==> (#[trigger] queue@[k]) < n,
            forall|k1: int, k2: int| 0 <= k1 < k2 < queue@.len() ==> queue@[k1] != queue@[k2],
            forall|jj: int|
                0 <= jj < n ==> (queue@.contains(jj as usize) <==> spec_unmet(
                    (#[trigger] old(cells)@[jj]).depends_on@,
                    Seq::<u64>::empty(),
                ) == 0),
        decreases n - j,
    {
        let deps_len = cells[j].depends_on.len();
        let dependent_id = cells[j].cell_id;
        let mut k: usize = 0;
        while k < deps_len
            invariant
                k <= deps_len,
                j < n,
                n == cells@.len(),
                n == old(cells)@.len(),
                deps_len == old(cells)@[j as int].depends_on@.len(),
                forall|jj: int|
                    0 <= jj < n ==> spec_same_cell_core(#[trigger] cells@[jj], old(cells)@[jj]),
                forall|jj: int|
                    0 <= jj < n ==> (#[trigger] cells@[jj]).result == old(cells)@[jj].result,
                forall|jj: int|
                    0 <= jj < n ==> (#[trigger] cells@[jj]).unmet_depend_count == spec_unmet(
                        old(cells)@[jj].depends_on@,
                        Seq::<u64>::empty(),
                    ),
            decreases deps_len - k,
        {
            let d = cells[j].depends_on[k];
            match find_cell(cells, d) {
                Option::Some(target) => {
                    let c = vec_index_mut(cells, target);
                    c.used_by.push(dependent_id);
                },
                Option::None => {},
            }
            k = k + 1;
        }
        j = j + 1;
    }
    queue
}

/// Whether any cell still has unmet dependencies.
fn find_stuck(cells: &Vec<Expression>) -> (r: bool)
    ensures
        r == exists|j: int|
            0 <= j < cells@.len() && (#[trigger] cells@[j]).unmet_depend_count != 0,
{
    let mut has_stuck = false;
    let mut j: usize = 0;
    while j < cells.len()
        invariant
            j <= cells@.len(),
            has_stuck == exists|jj: int|
                0 <= jj < j && (#[trigger] cells@[jj]).unmet_depend_count != 0,
        decreases cells@.len() - j,
    {
        if cells[j].unmet_depend_count != 0 {
            has_stuck = true;
        }
        proof {
            if cells@[j as int].unmet_depend_count != 0 {
            } else if has_stuck {
                let w = choose|jj: int|
                    0 <= jj < j && (#[trigger] cells@[jj]).unmet_depend_count != 0;
                assert(0 <= w < j + 1 && cells@[w].unmet_depend_count != 0);
            }
        }
        j = j + 1;
    }
    has_stuck
}

/// The ready set drained with every counter at zero: the processed
/// list covers every cell id (and, with distinct ids, is a
/// dependency-respecting permutation), every result is written once,
/// and every cell's result is bound in the scope.
#[verifier::rlimit(100)]
proof fn lemma_classify_ok(
    o: Seq<Expression>,
    c: Seq<Expression>,
    q: Seq<usize>,
    p: Seq<u64>,
    m: Map<u64, Identifier>,
)
    requires
        o.len() <= usize::MAX,
        o.len() == c.len(),
        forall|i: int| 0 <= i < o.len() ==> spec_same_cell_core(#[trigger] c[i], o[i]),
        p.len() == q.len(),
        forall|k: int| 0 <= k < q.len() ==> (#[trigger] q[k]) < o.len(),
        forall|k1: int, k2: int| 0 <= k1 < k2 < q.len() ==> q[k1] != q[k2],
        forall|k: int| 0 <= k < q.len() ==> p[k] == o[(#[trigger] q[k]) as int].cell_id,
        forall|j: int|
            0 <= j < o.len() ==> (#[trigger] c[j]).unmet_depend_count == spec_unmet(
                o[j].depends_on@,
                p,
            ),
        forall|j: int|
            0 <= j < o.len() ==> (q.contains(j as usize) <==> spec_unmet(
                (#[trigger] o[j]).depends_on@,
                p,
            ) == 0),
        forall|k: int, d: u64|
            #![trigger o[q[k] as int].depends_on@.contains(d)]
            0 <= k < q.len() && o[q[k] as int].depends_on@.contains(d) ==> p.take(k).contains(d),
        forall|j: int|
            0 <= j < o.len() && spec_in_prefix(q, q.len() as int, j) ==> ((o[j].result
                is Some ==> (#[trigger] c[j]).result == o[j].result) && (o[j].result
                is None ==> c[j].result is Some)),
        forall|j: int|
            0 <= j < o.len() && !spec_in_prefix(q, q.len() as int, j)
                ==> (#[trigger] c[j]).result == o[j].result,
        forall|k: int| 0 <= k < q.len() ==> m.contains_key(o[(#[trigger] q[k]) as int].symbol),
        forall|j: int| 0 <= j < o.len() ==> (#[trigger] c[j]).unmet_depend_count == 0,
    ensures
        p.len() == o.len(),
        forall|k: int| 0 <= k < p.len() ==> spec_has_id(o, #[trigger] p[k]),
        spec_distinct_ids(o) ==> forall|k1: int, k2: int|
            0 <= k1 < k2 < p.len() ==> p[k1] != p[k2],
        spec_distinct_ids(o) ==> forall|k: int, i: int, d: u64|
            #![trigger p[k], o[i].depends_on@.contains(d)]
            0 <= k < p.len() && 0 <= i < o.len() && o[i].cell_id == p[k]
                && o[i].depends_on@.contains(d) ==> p.subrange(0, k).contains(d),
        forall|i: int|
            0 <= i < o.len() ==> ((o[i].result is Some ==> (#[trigger] c[i]).result
                == o[i].result) && (o[i].result is None ==> c[i].result is Some)),
        forall|i: int| 0 <= i < o.len() ==> m.contains_key((#[trigger] c[i]).symbol),
{
    lemma_scheduler_ok(o, c, q, p);
    assert forall|i2: int| 0 <= i2 < o.len() implies m.contains_key(
        (#[trigger] c[i2]).symbol,
    ) by {
        assert(spec_in_prefix(q, q.len() as int, i2));
        let k = choose|k: int| 0 <= k < q.len() && q[k] == i2 as usize;
        assert(m.contains_key(o[(q[k]) as int].symbol));
    }
}

/// Once the ready set has drained, a cell with a zero counter was
/// evaluated: its result obeys the write-once rule and is bound in the
/// scope; and no counter is negative.
#[verifier::rlimit(100)]
proof fn lemma_classify_done(
    o: Seq<Expression>,
    c: Seq<Expression>,
    q: Seq<usize>,
    p: Seq<u64>,
    m: Map<u64, Identifier>,
)
    requires
        o.len() <= usize::MAX,
        o.len() == c.len(),
        forall|i: int| 0 <= i < o.len() ==> spec_same_cell_core(#[trigger] c[i], o[i]),
        p.len() == q.len(),
        forall|k: int| 0 <= k < q.len() ==> (#[trigger] q[k]) < o.len(),
        forall|k1: int, k2: int| 0 <= k1 < k2 < q.len() ==> q[k1] != q[k2],
        forall|k: int| 0 <= k < q.len() ==> p[k] == o[(#[trigger] q[k]) as int].cell_id,
        forall|j: int|
            0 <= j < o.len() ==> (#[trigger] c[j]).unmet_depend_count == spec_unmet(
                o[j].depends_on@,
                p,
            ),
        forall|j: int|
            0 <= j < o.len() ==> (q.contains(j as usize) <==> spec_unmet(
                (#[trigger] o[j]).depends_on@,
                p,
            ) == 0),
        forall|k: int, d: u64|
            #![trigger o[q[k] as int].depends_on@.contains(d)]
            0 <= k < q.len() && o[q[k] as int].depends_on@.contains(d) ==> p.take(k).contains(d),
        forall|j: int|
            0 <= j < o.len() && spec_in_prefix(q, q.len() as int, j) ==> ((o[j].result
                is Some ==> (#[trigger] c[j]).result == o[j].result) && (o[j].result
                is None ==> c[j].result is Some)),
        forall|j: int|
            0 <= j < o.len() && !spec_in_prefix(q, q.len() as int, j)
                ==> (#[trigger] c[j]).result == o[j].result,
        forall|k: int| 0 <= k < q.len() ==> m.contains_key(o[(#[trigger] q[k]) as int].symbol),
    ensures
        forall|i: int| 0 <= i < o.len() ==> (#[trigger] c[i]).unmet_depend_count >= 0,
        forall|i: int|
            0 <= i < o.len() && (#[trigger] c[i]).unmet_depend_count == 0 ==> ((o[i].result
                is Some ==> c[i].result == o[i].result) && (o[i].result is None ==> c[i].result
                is Some)),
        forall|i: int|
            0 <= i < o.len() && (#[trigger] c[i]).unmet_depend_count == 0 ==> m.contains_key(
                c[i].symbol,
            ),
{
    assert forall|i2: int| 0 <= i2 < o.len() implies (#[trigger] c[i2]).unmet_depend_count
        >= 0 by {
        lemma_unmet_zero(o[i2].depends_on@, p);
    }
    assert forall|i2: int|
        0 <= i2 < o.len() && (#[trigger] c[i2]).unmet_depend_count == 0 implies spec_in_prefix(
        q,
        q.len() as int,
        i2,
    ) by {
        assert(q.contains(i2 as usize));
        let k = choose|k: int| 0 <= k < q.len() && q[k] == i2 as usize;
    }
    assert forall|i2: int|
        0 <= i2 < o.len() && (#[trigger] c[i2]).unmet_depend_count == 0 implies m.contains_key(
        c[i2].symbol,
    ) by {
        let k = choose|k: int| 0 <= k < q.len() && q[k] == i2 as usize;
        assert(m.contains_key(o[(q[k]) as int].symbol));
    }
}

/// Classify the outcome of a drained ready queue: if every counter is
/// zero the processed list is returned as the evaluation order, else
/// the pass fails with the circular-dependency error.
#[verifier::rlimit(100)]
fn classify(
    cells: &Vec<Expression>,
    processed: Vec<u64>,
    Ghost(o): Ghost<Seq<Expression>>,
    Ghost(q): Ghost<Seq<usize>>,
    Ghost(m): Ghost<Map<u64, Identifier>>,
) -> (r: Result<Vec<u64>, u64>)
    requires
        o.len() <= usize::MAX,
        o.len() == cells@.len(),
        forall|i: int| 0 <= i < o.len() ==> spec_same_cell_core(#[trigger] cells@[i], o[i]),
        processed@.len() == q.len(),
        forall|k: int| 0 <= k < q.len() ==> (#[trigger] q[k]) < o.len(),
        forall|k1: int, k2: int| 0 <= k1 < k2 < q.len() ==> q[k1] != q[k2],
        forall|k: int| 0 <= k < q.len() ==> processed@[k] == o[(#[trigger] q[k]) as int].cell_id,
        forall|j: int|
            0 <= j < o.len() ==> (#[trigger] cells@[j]).unmet_depend_count == spec_unmet(
                o[j].depends_on@,
                processed@,
            ),
        forall|j: int|
            0 <= j < o.len() ==> (q.contains(j as usize) <==> spec_unmet(
                (#[trigger] o[j]).depends_on@,
                processed@,
            ) == 0),
        forall|k: int, d: u64|
            #![trigger o[q[k] as int].depends_on@.contains(d)]
            0 <= k < q.len() && o[q[k] as int].depends_on@.contains(d) ==> processed@.take(
                k,
            ).contains(d),
        forall|j: int|
            0 <= j < o.len() && spec_in_prefix(q, q.len() as int, j) ==> ((o[j].result
                is Some ==> (#[trigger] cells@[j]).result == o[j].result) && (o[j].result
                is None ==> cells@[j].result is Some)),
        forall|j: int|
            0 <= j < o.len() && !spec_in_prefix(q, q.len() as int, j)
                ==> (#[trigger] cells@[j]).result == o[j].result,
        forall|k: int| 0 <= k < q.len() ==> m.contains_key(o[(#[trigger] q[k]) as int].symbol),
    ensures
        forall|i: int|
            0 <= i < o.len() ==> (#[trigger] cells@[i]).unmet_depend_count >= 0,
        forall|i: int|
            0 <= i < o.len() && (#[trigger] cells@[i]).unmet_depend_count == 0 ==> ((o[i].result
                is Some ==> cells@[i].result == o[i].result) && (o[i].result is None
                ==> cells@[i].result is Some)),
        forall|i: int|
            0 <= i < o.len() && (#[trigger] cells@[i]).unmet_depend_count > 0 ==> cells@[i].result
                == o[i].result,
        forall|i: int|
            0 <= i < o.len() && (#[trigger] cells@[i]).unmet_depend_count == 0 ==> m.contains_key(
                cells@[i].symbol,
            ),
        r matches Ok(order) ==> {
            &&& order@.len() == o.len()
            &&& forall|k: int| 0 <= k < order@.len() ==> spec_has_id(o, #[trigger] order@[k])
            &&& spec_distinct_ids(o) ==> forall|k1: int, k2: int|
                0 <= k1 < k2 < order@.len() ==> order@[k1] != order@[k2]
            &&& spec_distinct_ids(o) ==> forall|k: int, i: int, d: u64|
                #![trigger order@[k], o[i].depends_on@.contains(d)]
                0 <= k < order@.len() && 0 <= i < o.len() && o[i].cell_id == order@[k]
                    && o[i].depends_on@.contains(d) ==> order@.subrange(0, k).contains(d)
            &&& forall|i: int|
                0 <= i < o.len() ==> (#[trigger] cells@[i]).unmet_depend_count == 0
        },
        r matches Err(e) ==> {
            &&& e == RUNTIME_ERR_CIRCULAR_DEP
            &&& exists|i: int|
                0 <= i < o.len() && (#[trigger] cells@[i]).unmet_depend_count > 0
            &&& spec_closed_graph(o) ==> forall|i: int|
                0 <= i < o.len() && (#[trigger] cells@[i]).unmet_depend_count > 0 ==> exists|
                j: int,
            |
                    0 <= j < o.len() && cells@[j].unmet_depend_count > 0
                        && o[i].depends_on@.contains(o[j].cell_id)
        },
{
    let has_stuck = find_stuck(cells);
    if !has_stuck {
        proof {
            lemma_classify_ok(o, cells@, q, processed@, m);
        }
        Result::Ok(processed)
    } else {
        proof {
            lemma_classify_done(o, cells@, q, processed@, m);
            let w = choose|j: int|
                0 <= j < o.len() && (#[trigger] cells@[j]).unmet_depend_count != 0;
            assert(cells@[w].unmet_depend_count > 0);
            assert forall|i: int|
                0 <= i < o.len() && (#[trigger] cells@[i]).unmet_depend_count > 0 implies
                    !spec_in_prefix(q, q.len() as int, i) by {
                if spec_in_prefix(q, q.len() as int, i) {
                    let k = choose|k: int| 0 <= k < q.len() && q[k] == i as usize;
                    assert(q.contains(i as usize));
                }
            }
            assert forall|i: int|
                0 <= i < o.len() && (#[trigger] cells@[i]).unmet_depend_count > 0 implies
                    cells@[i].result == o[i].result by {
                assert(!spec_in_prefix(q, q.len() as int, i));
            }
            if spec_closed_graph(o) {
                lemma_scheduler_err(o, cells@, q, processed@);
            }
        }
        Result::Err(RUNTIME_ERR_CIRCULAR_DEP)
    }
}

/// Kahn-style topological evaluation of a consistent cell graph.
///
/// Cells whose dependencies are all met are evaluated first in, first
/// out; every evaluated cell's result is recorded write-once and bound
/// into the scope under the cell's symbol, and its dependents' counters
/// drop. On success the returned order lists every cell id, each after
/// all of its dependencies. If the ready set runs dry with cells still
/// waiting, those cells form an unresolved cycle — each of them depends
/// on another waiting cell — their results are never written, and the
/// whole pass fails with the circular-dependency error.
///
/// The scheduler is total over user-supplied graphs: a dependency that
/// names no cell simply never clears, so its cell stalls into the
/// failing case; the cycle certificate is stated for closed graphs, and
/// the order's permutation properties for graphs with distinct cell
/// ids. The reverse `used_by` edges are recomputed as scheduling
/// bookkeeping.
#[verifier::rlimit(100)]
pub fn run_cells<F: Fn(NumOp, u64, u64) -> u64>(
    env: &mut Environment,
    cells: &mut Vec<Expression>,
    fpu: &F,
) -> (r: Result<Vec<u64>, u64>)
    requires
        fpu_ok(*fpu),
        forall|i: int|
            0 <= i < old(cells)@.len() ==> (#[trigger] old(cells)@[i]).depends_on@.len()
                <= i32::MAX,
    ensures
        final(cells)@.len() == old(cells)@.len(),
        forall|i: int|
            0 <= i < old(cells)@.len() ==> spec_same_cell_core(
                #[trigger] final(cells)@[i],
                old(cells)@[i],
            ),
        forall|i: int|
            0 <= i < old(cells)@.len() ==> (#[trigger] final(cells)@[i]).unmet_depend_count >= 0,
        forall|i: int|
            0 <= i < old(cells)@.len() && (#[trigger] final(cells)@[i]).unmet_depend_count == 0
                ==> ((old(cells)@[i].result is Some ==> final(cells)@[i].result == old(
                cells,
            )@[i].result) && (old(cells)@[i].result is None ==> final(cells)@[i].result is Some)),
        forall|i: int|
            0 <= i < old(cells)@.len() && (#[trigger] final(cells)@[i]).unmet_depend_count > 0
                ==> final(cells)@[i].result == old(cells)@[i].result,
        forall|i: int|
            0 <= i < old(cells)@.len() && (#[trigger] final(cells)@[i]).unmet_depend_count == 0
                ==> final(env).ids().contains_key(final(cells)@[i].symbol),
        final(env).parent == old(env).parent,
        final(env).body == old(env).body,
        final(env).normname_symbols == old(env).normname_symbols,
        final(env).next_symbol_id >= old(env).next_symbol_id,
        forall|s: u64| old(env).ids().contains_key(s) ==> final(env).ids().contains_key(s),
        r matches Ok(order) ==> {
            &&& order@.len() == old(cells)@.len()
            &&& forall|k: int|
                0 <= k < order@.len() ==> spec_has_id(old(cells)@, #[trigger] order@[k])
            &&& spec_distinct_ids(old(cells)@) ==> forall|k1: int, k2: int|
                0 <= k1 < k2 < order@.len() ==> order@[k1] != order@[k2]
            &&& spec_distinct_ids(old(cells)@) ==> forall|k: int, i: int, d: u64|
                #![trigger order@[k], old(cells)@[i].depends_on@.contains(d)]
                0 <= k < order@.len() && 0 <= i < old(cells)@.len() && old(cells)@[i].cell_id
                    == order@[k] && old(cells)@[i].depends_on@.contains(d) ==> order@.subrange(
                    0,
                    k,
                ).contains(d)
            &&& forall|i: int|
                0 <= i < old(cells)@.len() ==> (#[trigger] final(cells)@[i]).unmet_depend_count
                    == 0
        },
        r matches Err(e) ==> {
            &&& e == RUNTIME_ERR_CIRCULAR_DEP
            &&& exists|i: int|
                0 <= i < old(cells)@.len() && (#[trigger] final(cells)@[i]).unmet_depend_count > 0
            &&& spec_closed_graph(old(cells)@) ==> forall|i: int|
                0 <= i < old(cells)@.len() && (#[trigger] final(cells)@[i]).unmet_depend_count > 0
                    ==> exists|j: int|
                    0 <= j < old(cells)@.len() && final(cells)@[j].unmet_depend_count > 0 && old(
                        cells,
                    )@[i].depends_on@.contains(old(cells)@[j].cell_id)
        },
{
    let n = cells.len();
    let mut processed: Vec<u64> = Vec::new();
    let mut queue: Vec<usize> = link_cells(cells);

    // Evaluate the ready cells first in, first out; each release may
    // make further cells ready.
    proof {
        lemma_distinct_bounded(queue@, n as int);
    }
    let mut head: usize = 0;
    while head < queue.len()
        invariant
            fpu_ok(*fpu),
            n == cells@.len(),
            n == old(cells)@.len(),
            head <= queue@.len() <= n,
            processed@.len() == head,
            forall|k: int| 0 <= k < queue@.len() ==> (#[trigger] queue@[k]) < n,
            forall|k1: int, k2: int| 0 <= k1 < k2 < queue@.len() ==> queue@[k1] != queue@[k2],
            forall|k: int|
                0 <= k < head ==> processed@[k] == old(cells)@[(#[trigger] queue@[k]) as int].cell_id,
            forall|j2: int|
                0 <= j2 < n ==> (#[trigger] cells@[j2]).unmet_depend_count == spec_unmet(
                    old(cells)@[j2].depends_on@,
                    processed@,
                ),
            forall|j2: int|
                0 <= j2 < n ==> (queue@.contains(j2 as usize) <==> spec_unmet(
                    (#[trigger] old(cells)@[j2]).depends_on@,
                    processed@,
                ) == 0),
            forall|k: int, d: u64|
                #![trigger old(cells)@[queue@[k] as int].depends_on@.contains(d)]
                0 <= k < head && old(cells)@[queue@[k] as int].depends_on@.contains(d)
                    ==> processed@.take(k).contains(d),
            forall|i2: int|
                0 <= i2 < n ==> spec_same_cell_core(#[trigger] cells@[i2], old(cells)@[i2]),
            forall|j2: int|
                0 <= j2 < n && spec_in_prefix(queue@, head as int, j2) ==> ((old(
                    cells,
                )@[j2].result is Some ==> (#[trigger] cells@[j2]).result == old(cells)@[j2].result)
                    && (old(cells)@[j2].result is None ==> cells@[j2].result is Some)),
            forall|j2: int|
                0 <= j2 < n && !spec_in_prefix(queue@, head as int, j2)
                    ==> (#[trigger] cells@[j2]).result == old(cells)@[j2].result,
            forall|i2: int|
                0 <= i2 < n ==> (#[trigger] old(cells)@[i2]).depends_on@.len() <= i32::MAX,
            env.parent == old(env).parent,
            env.body == old(env).body,
            env.normname_symbols == old(env).normname_symbols,
            env.next_symbol_id >= old(env).next_symbol_id,
            forall|s: u64| old(env).ids().contains_key(s) ==> env.ids().contains_key(s),
            forall|k: int|
                0 <= k < head ==> env.ids().contains_key(
                    old(cells)@[(#[trigger] queue@[k]) as int].symbol,
                ),
        decreases n - head,
    {
        let idx = queue[head];
        let ghost pre_processed = processed@;
        let ghost pre_queue = queue@;

        // Evaluate the cell against the scope.
        let tokens = duplicate_atoms(&cells[idx].parsed);
        let result = eval_tokens(env, &tokens, fpu);
        let cell_symbol = cells[idx].symbol;
        env.bind_result(cell_symbol, result);

        // Record the result, write-once.
        proof {
            if spec_in_prefix(queue@, head as int, idx as int) {
                let k = choose|k: int|
                    0 <= k < head && queue@[k] == idx as usize;
                assert(queue@[k] == queue@[head as int]);
                assert(false);
            }
        }
        let c = vec_index_mut(cells, idx);
        c.set_result(result);

        // The cell is now evaluated: its id joins the processed list.
        let pid = cells[idx].cell_id;
        processed.push(pid);
        head = head + 1;

        proof {
            // The popped cell was ready, so its dependencies were all
            // processed before it.
            assert(pre_queue.contains(idx));
            lemma_unmet_zero(old(cells)@[idx as int].depends_on@, pre_processed);
            assert(processed@.take(head - 1 as int) =~= pre_processed);
            assert forall|k: int|
                0 <= k < head implies processed@[k] == old(cells)@[(#[trigger] queue@[k]) as int].cell_id by {
                if k < head - 1 {
                    assert(processed@[k] == pre_processed[k]);
                }
            }
            assert forall|k: int, d: u64|
                #![trigger old(cells)@[queue@[k] as int].depends_on@.contains(d)]
                0 <= k < head && old(cells)@[queue@[k] as int].depends_on@.contains(d)
                    implies processed@.take(k).contains(d) by {
                if k < head - 1 {
                    assert(pre_processed.take(k).contains(d));
                    let w = choose|w: int| 0 <= w < k && pre_processed.take(k)[w] == d;
                    assert(processed@.take(k)[w] == d);
                } else {
                    // The new prefix entry: its dependencies are all in
                    // the pre-pop processed list.
                    let deps = old(cells)@[idx as int].depends_on@;
                    let w = choose|w: int| 0 <= w < deps.len() && deps[w] == d;
                    assert(pre_processed.contains(deps[w]));
                    let w2 = choose|w2: int|
                        0 <= w2 < pre_processed.len() && pre_processed[w2] == d;
                    assert(processed@.take(k)[w2] == d);
                }
            }
        }

        // Release the dependents: recompute every counter against the
        // grown processed list, and queue the cells that became ready.
        let mut j2: usize = 0;
        while j2 < n
            invariant
                fpu_ok(*fpu),
                j2 <= n,
                n == cells@.len(),
                n == old(cells)@.len(),
                0 < head <= queue@.len() <= n,
                processed@.len() == head,
                forall|k: int| 0 <= k < queue@.len() ==> (#[trigger] queue@[k]) < n,
                forall|k1: int, k2: int| 0 <= k1 < k2 < queue@.len() ==> queue@[k1] != queue@[k2],
                forall|k: int|
                    0 <= k < head ==> processed@[k] == old(cells)@[(#[trigger] queue@[k]) as int].cell_id,
                forall|jj: int|
                    0 <= jj < j2 ==> (#[trigger] cells@[jj]).unmet_depend_count == spec_unmet(
                        old(cells)@[jj].depends_on@,
                        processed@,
                    ),
                forall|jj: int|
                    j2 <= jj < n ==> (#[trigger] cells@[jj]).unmet_depend_count == spec_unmet(
                        old(cells)@[jj].depends_on@,
                        processed@.drop_last(),
                    ),
                forall|jj: int|
                    0 <= jj < j2 ==> (queue@.contains(jj as usize) <==> spec_unmet(
                        (#[trigger] old(cells)@[jj]).depends_on@,
                        processed@,
                    ) == 0),
                forall|jj: int|
                    j2 <= jj < n ==> (queue@.contains(jj as usize) ==> spec_unmet(
                        (#[trigger] old(cells)@[jj]).depends_on@,
                        processed@.drop_last(),
                    ) == 0),
                forall|jj: int|
                    j2 <= jj < n && spec_unmet(
                        (#[trigger] old(cells)@[jj]).depends_on@,
                        processed@.drop_last(),
                    ) == 0 ==> queue@.contains(jj as usize),
                forall|k: int, d: u64|
                    #![trigger old(cells)@[queue@[k] as int].depends_on@.contains(d)]
                    0 <= k < head && old(cells)@[queue@[k] as int].depends_on@.contains(d)
                        ==> processed@.take(k).contains(d),
                forall|i2: int|
                    0 <= i2 < n ==> spec_same_cell_core(#[trigger] cells@[i2], old(cells)@[i2]),
                forall|jj: int|
                    0 <= jj < n && spec_in_prefix(queue@, head as int, jj) ==> ((old(
                        cells,
                    )@[jj].result is Some ==> (#[trigger] cells@[jj]).result == old(
                        cells,
                    )@[jj].result) && (old(cells)@[jj].result is None ==> cells@[jj].result
                        is Some)),
                forall|jj: int|
                    0 <= jj < n && !spec_in_prefix(queue@, head as int, jj)
                        ==> (#[trigger] cells@[jj]).result == old(cells)@[jj].result,
                forall|i2: int|
                    0 <= i2 < n ==> (#[trigger] old(cells)@[i2]).depends_on@.len() <= i32::MAX,
                env.parent == old(env).parent,
                env.body == old(env).body,
                env.normname_symbols == old(env).normname_symbols,
                env.next_symbol_id >= old(env).next_symbol_id,
                forall|s: u64| old(env).ids().contains_key(s) ==> env.ids().contains_key(s),
                forall|k: int|
                    0 <= k < head ==> env.ids().contains_key(
                        old(cells)@[(#[trigger] queue@[k]) as int].symbol,
                    ),
            decreases n - j2,
        {
            let cnt = count_unmet(&cells[j2].depends_on, &processed);
            proof {
                lemma_unmet_zero(cells@[j2 as int].depends_on@, processed@);
                if spec_unmet(old(cells)@[j2 as int].depends_on@, processed@.drop_last()) == 0 {
                    lemma_unmet_zero_push(
                        old(cells)@[j2 as int].depends_on@,
                        processed@.drop_last(),
                        processed@.last(),
                    );
                    assert(processed@.drop_last().push(processed@.last()) =~= processed@);
                }
            }
            let c = vec_index_mut(cells, j2);
            c.unmet_depend_count = cnt as i32;
            if cnt == 0 && !contains_index(&queue, j2) {
                let ghost q0 = queue@;
                queue.push(j2);
                proof {
                    lemma_distinct_bounded(queue@, n as int);
                    assert forall|jj: int|
                        0 <= jj < n implies spec_in_prefix(queue@, head as int, jj)
                            == spec_in_prefix(q0, head as int, jj) by {
                        lemma_prefix_push(q0, j2, head as int, jj);
                    }
                }
            }
            j2 = j2 + 1;
        }
        proof {
            assert(processed@.drop_last().push(processed@.last()) =~= processed@);
        }
    }

    // The ready set ran dry; classify what remains.
    classify(cells, processed, Ghost(old(cells)@), Ghost(queue@), Ghost(env.ids()))
}

/// Whether an index occurs in the ready queue.
fn contains_index(v: &Vec<usize>, x: usize) -> (r: bool)
    ensures
        r == v@.contains(x),
{
    let mut i: usize = 0;
    while i < v.len()
        invariant
            i <= v@.len(),
            forall|j: int| 0 <= j < i ==> v@[j] != x,
        decreases v@.len() - i,
    {
        if v[i] == x {
            return true;
        }
        i = i + 1;
    }
    proof {
        assert(!v@.contains(x));
    }
    false
}

} // verus!
