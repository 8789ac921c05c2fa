//! The process-wide symbol registry: the fixed keyword table, the
//! built-in native-function modules, and the error-message lookup.
//!
//! The reserved keyword ids are contiguous and strictly increasing in
//! table-definition order, so a keyword id doubles as an index into the
//! table; that invariant is stated on the constructor.
use vstd::prelude::*;

use crate::constants::{
    INTERPRETER_ERR, PARSE_ERR, PARSE_ERR_INVALID_FLOAT, PARSE_ERR_UNEXPECTED_TOKEN,
    PARSE_ERR_UNK_SYMBOL, PARSE_ERR_UNKNOWN_TOKEN, PARSE_ERR_UNMATCHED_PARENS,
    PARSE_ERR_UNTERM_STR, PARSE_ERR_USED_NAME, PAYLOAD_MASK, RUNTIME_ERR, RUNTIME_ERR_CIRCULAR_DEP,
    RUNTIME_ERR_DIV_Z, RUNTIME_ERR_EXPECTED_BOOL, RUNTIME_ERR_EXPECTED_NUM,
    RUNTIME_ERR_EXPECTED_STR, RUNTIME_ERR_FN_ARITY, RUNTIME_ERR_FN_EXPECTED, RUNTIME_ERR_FN_UNK,
    RUNTIME_ERR_INVALID_TYPE, RUNTIME_ERR_MEMORY_ACCESS, RUNTIME_ERR_TYPE_NAN,
    RUNTIME_ERR_UNK_VAL, SYMBOL_ID_AND, SYMBOL_ID_CLOSE_BRACE, SYMBOL_ID_CLOSE_PAREN,
    SYMBOL_ID_CLOSE_SQBR, SYMBOL_ID_COLON, SYMBOL_ID_COMMA, SYMBOL_ID_DBL_EQUALS, SYMBOL_ID_DIVIDE,
    SYMBOL_ID_DOT, SYMBOL_ID_EQUALS, SYMBOL_ID_GT, SYMBOL_ID_GTE, SYMBOL_ID_LT, SYMBOL_ID_LTE,
    SYMBOL_ID_MINUS, SYMBOL_ID_MODULO, SYMBOL_ID_MULTIPLY, SYMBOL_ID_NOT, SYMBOL_ID_NOT_EQUALS,
    SYMBOL_ID_OPEN_BRACE, SYMBOL_ID_OPEN_PAREN, SYMBOL_ID_OPEN_SQBR, SYMBOL_ID_OR, SYMBOL_ID_PLUS,
    SYMBOL_ID_SEMI_COLON, AV_FN_ABS_SYMBOL, AV_FN_CEIL_SYMBOL, AV_FN_FLOOR_SYMBOL,
    AV_FN_MAX_SYMBOL, AV_FN_MIN_SYMBOL, AV_FN_ROUND_SYMBOL, AV_FN_SQRT_SYMBOL, AV_FN_TRUNC_SYMBOL,
    SYMBOL_CALL_FN, SYMBOL_FALSE, SYMBOL_NONE, SYMBOL_TRUE, VALUE_F_SYM_OBJ,
};
use crate::structs::{AtomView, BinOp, Fn1Kind, Fn2Kind, Keyword, Module, NativeFn, NativeFn1, NativeFn2};
use crate::utils::{create_value_symbol, spec_create_value_symbol};

verus! {

/// A payload tagged into the falsey keyword space.
pub open spec fn spec_falsey_symbol(raw: u64) -> u64 {
    raw | VALUE_F_SYM_OBJ
}

fn falsey_symbol(raw: u64) -> (r: u64)
    ensures
        r == spec_falsey_symbol(raw),
{
    raw | VALUE_F_SYM_OBJ
}

/// The binary operation a reserved keyword symbol performs, if any.
/// Equality, punctuation, and the unary `not` have none.
pub open spec fn spec_keyword_operation(symbol: u64) -> Option<BinOp> {
    if symbol == spec_create_value_symbol(SYMBOL_ID_OR) {
        Option::Some(BinOp::Or)
    } else if symbol == spec_create_value_symbol(SYMBOL_ID_AND) {
        Option::Some(BinOp::And)
    } else if symbol == spec_create_value_symbol(SYMBOL_ID_LT) {
        Option::Some(BinOp::Lt)
    } else if symbol == spec_create_value_symbol(SYMBOL_ID_LTE) {
        Option::Some(BinOp::Lte)
    } else if symbol == spec_create_value_symbol(SYMBOL_ID_GT) {
        Option::Some(BinOp::Gt)
    } else if symbol == spec_create_value_symbol(SYMBOL_ID_GTE) {
        Option::Some(BinOp::Gte)
    } else if symbol == spec_create_value_symbol(SYMBOL_ID_PLUS) {
        Option::Some(BinOp::Add)
    } else if symbol == spec_create_value_symbol(SYMBOL_ID_MINUS) {
        Option::Some(BinOp::Sub)
    } else if symbol == spec_create_value_symbol(SYMBOL_ID_MULTIPLY) {
        Option::Some(BinOp::Mul)
    } else if symbol == spec_create_value_symbol(SYMBOL_ID_DIVIDE) {
        Option::Some(BinOp::Div)
    } else {
        Option::None
    }
}

pub fn keyword_operation(symbol: u64) -> (r: Option<BinOp>)
    ensures
        r == spec_keyword_operation(symbol),
{
    if symbol == create_value_symbol(SYMBOL_ID_OR) {
        Option::Some(BinOp::Or)
    } else if symbol == create_value_symbol(SYMBOL_ID_AND) {
        Option::Some(BinOp::And)
    } else if symbol == create_value_symbol(SYMBOL_ID_LT) {
        Option::Some(BinOp::Lt)
    } else if symbol == create_value_symbol(SYMBOL_ID_LTE) {
        Option::Some(BinOp::Lte)
    } else if symbol == create_value_symbol(SYMBOL_ID_GT) {
        Option::Some(BinOp::Gt)
    } else if symbol == create_value_symbol(SYMBOL_ID_GTE) {
        Option::Some(BinOp::Gte)
    } else if symbol == create_value_symbol(SYMBOL_ID_PLUS) {
        Option::Some(BinOp::Add)
    } else if symbol == create_value_symbol(SYMBOL_ID_MINUS) {
        Option::Some(BinOp::Sub)
    } else if symbol == create_value_symbol(SYMBOL_ID_MULTIPLY) {
        Option::Some(BinOp::Mul)
    } else if symbol == create_value_symbol(SYMBOL_ID_DIVIDE) {
        Option::Some(BinOp::Div)
    } else {
        Option::None
    }
}

/// The reserved keyword table, ordered by symbol id so it can serve as
/// a precedence and dispatch lookup table. Ids run contiguously from
/// zero in definition order.
#[verifier::rlimit(100)]
pub fn reserved_symbols() -> (r: Vec<Keyword>)
    ensures
        r@.len() == 29,
        forall|i: int| 0 <= i < r@.len() ==> ((#[trigger] r@[i].symbol) & PAYLOAD_MASK) == i,
        forall|i: int|
            0 <= i < 25 ==> (#[trigger] r@[i].symbol) == spec_create_value_symbol(i as u64),
        r@[25].symbol == SYMBOL_TRUE,
        r@[26].symbol == SYMBOL_FALSE,
        r@[27].symbol == SYMBOL_NONE,
        r@[28].symbol == SYMBOL_CALL_FN,
        r@[0].name@ == ","@ && r@[0].precedence == Option::Some(1u8) && r@[0].operation == Option::<BinOp>::None,
        r@[1].name@ == "="@ && r@[1].precedence == Option::Some(2u8) && r@[1].operation == Option::<BinOp>::None,
        r@[2].name@ == "or"@ && r@[2].precedence == Option::Some(3u8) && r@[2].operation == Option::Some(BinOp::Or),
        r@[3].name@ == "and"@ && r@[3].precedence == Option::Some(4u8) && r@[3].operation == Option::Some(BinOp::And),
        r@[4].name@ == "not"@ && r@[4].precedence == Option::Some(5u8) && r@[4].operation == Option::<BinOp>::None,
        r@[5].name@ == "=="@ && r@[5].precedence == Option::Some(10u8) && r@[5].operation == Option::<BinOp>::None,
        r@[6].name@ == "!="@ && r@[6].precedence == Option::Some(10u8) && r@[6].operation == Option::<BinOp>::None,
        r@[7].name@ == "<"@ && r@[7].precedence == Option::Some(15u8) && r@[7].operation == Option::Some(BinOp::Lt),
        r@[8].name@ == "<="@ && r@[8].precedence == Option::Some(15u8) && r@[8].operation == Option::Some(BinOp::Lte),
        r@[9].name@ == ">"@ && r@[9].precedence == Option::Some(15u8) && r@[9].operation == Option::Some(BinOp::Gt),
        r@[10].name@ == ">="@ && r@[10].precedence == Option::Some(15u8) && r@[10].operation == Option::Some(BinOp::Gte),
        r@[11].name@ == "+"@ && r@[11].precedence == Option::Some(20u8) && r@[11].operation == Option::Some(BinOp::Add),
        r@[12].name@ == "-"@ && r@[12].precedence == Option::Some(20u8) && r@[12].operation == Option::Some(BinOp::Sub),
        r@[13].name@ == "*"@ && r@[13].precedence == Option::Some(21u8) && r@[13].operation == Option::Some(BinOp::Mul),
        r@[14].name@ == "/"@ && r@[14].precedence == Option::Some(21u8) && r@[14].operation == Option::Some(BinOp::Div),
        r@[15].name@ == "%"@ && r@[15].precedence == Option::Some(21u8) && r@[15].operation == Option::<BinOp>::None,
        r@[16].name@ == "."@ && r@[16].precedence == Option::Some(25u8) && r@[16].operation == Option::<BinOp>::None,
        r@[17].name@ == "("@ && r@[17].precedence == Option::Some(30u8) && r@[17].operation == Option::<BinOp>::None,
        r@[18].name@ == ")"@ && r@[18].precedence == Option::Some(30u8) && r@[18].operation == Option::<BinOp>::None,
        r@[19].name@ == "["@ && r@[19].precedence == Option::<u8>::None && r@[19].operation == Option::<BinOp>::None,
        r@[20].name@ == "]"@ && r@[20].precedence == Option::<u8>::None && r@[20].operation == Option::<BinOp>::None,
        r@[21].name@ == "{"@ && r@[21].precedence == Option::<u8>::None && r@[21].operation == Option::<BinOp>::None,
        r@[22].name@ == "}"@ && r@[22].precedence == Option::<u8>::None && r@[22].operation == Option::<BinOp>::None,
        r@[23].name@ == ":"@ && r@[23].precedence == Option::<u8>::None && r@[23].operation == Option::<BinOp>::None,
        r@[24].name@ == ";"@ && r@[24].precedence == Option::<u8>::None && r@[24].operation == Option::<BinOp>::None,
        r@[25].name@ == "True"@ && r@[25].precedence == Option::<u8>::None && r@[25].operation == Option::<BinOp>::None,
        r@[26].name@ == "False"@ && r@[26].precedence == Option::<u8>::None && r@[26].operation == Option::<BinOp>::None,
        r@[27].name@ == "None"@ && r@[27].precedence == Option::<u8>::None && r@[27].operation == Option::<BinOp>::None,
        r@[28].name@ == "__call__"@ && r@[28].precedence == Option::<u8>::None && r@[28].operation == Option::<BinOp>::None,
{
    let mut r: Vec<Keyword> = Vec::new();
    r.push(Keyword {
        symbol: create_value_symbol(SYMBOL_ID_COMMA),
        name: ",",
        precedence: Option::Some(1),
        operation: Option::None,
    });
    r.push(Keyword {
        symbol: create_value_symbol(SYMBOL_ID_EQUALS),
        name: "=",
        precedence: Option::Some(2),
        operation: Option::None,
    });
    r.push(Keyword {
        symbol: create_value_symbol(SYMBOL_ID_OR),
        name: "or",
        precedence: Option::Some(3),
        operation: Option::Some(BinOp::Or),
    });
    r.push(Keyword {
        symbol: create_value_symbol(SYMBOL_ID_AND),
        name: "and",
        precedence: Option::Some(4),
        operation: Option::Some(BinOp::And),
    });
    r.push(Keyword {
        symbol: create_value_symbol(SYMBOL_ID_NOT),
        name: "not",
        precedence: Option::Some(5),
        // `not` is unary, so it is dispatched separately.
        operation: Option::None,
    });
    r.push(Keyword {
        symbol: create_value_symbol(SYMBOL_ID_DBL_EQUALS),
        name: "==",
        precedence: Option::Some(10),
        operation: Option::None,
    });
    r.push(Keyword {
        symbol: create_value_symbol(SYMBOL_ID_NOT_EQUALS),
        name: "!=",
        precedence: Option::Some(10),
        operation: Option::None,
    });
    r.push(Keyword {
        symbol: create_value_symbol(SYMBOL_ID_LT),
        name: "<",
        precedence: Option::Some(15),
        operation: Option::Some(BinOp::Lt),
    });
    r.push(Keyword {
        symbol: create_value_symbol(SYMBOL_ID_LTE),
        name: "<=",
        precedence: Option::Some(15),
        operation: Option::Some(BinOp::Lte),
    });
    r.push(Keyword {
        symbol: create_value_symbol(SYMBOL_ID_GT),
        name: ">",
        precedence: Option::Some(15),
        operation: Option::Some(BinOp::Gt),
    });
    r.push(Keyword {
        symbol: create_value_symbol(SYMBOL_ID_GTE),
        name: ">=",
        precedence: Option::Some(15),
        operation: Option::Some(BinOp::Gte),
    });
    r.push(Keyword {
        symbol: create_value_symbol(SYMBOL_ID_PLUS),
        name: "+",
        precedence: Option::Some(20),
        operation: Option::Some(BinOp::Add),
    });
    r.push(Keyword {
        symbol: create_value_symbol(SYMBOL_ID_MINUS),
        name: "-",
        precedence: Option::Some(20),
        operation: Option::Some(BinOp::Sub),
    });
    r.push(Keyword {
        symbol: create_value_symbol(SYMBOL_ID_MULTIPLY),
        name: "*",
        precedence: Option::Some(21),
        operation: Option::Some(BinOp::Mul),
    });
    r.push(Keyword {
        symbol: create_value_symbol(SYMBOL_ID_DIVIDE),
        name: "/",
        precedence: Option::Some(21),
        operation: Option::Some(BinOp::Div),
    });
    r.push(Keyword {
        symbol: create_value_symbol(SYMBOL_ID_MODULO),
        name: "%",
        precedence: Option::Some(21),
        operation: Option::None,
    });
    r.push(Keyword {
        symbol: create_value_symbol(SYMBOL_ID_DOT),
        name: ".",
        precedence: Option::Some(25),
        operation: Option::None,
    });
    r.push(Keyword {
        symbol: create_value_symbol(SYMBOL_ID_OPEN_PAREN),
        name: "(",
        precedence: Option::Some(30),
        operation: Option::None,
    });
    r.push(Keyword {
        symbol: create_value_symbol(SYMBOL_ID_CLOSE_PAREN),
        name: ")",
        precedence: Option::Some(30),
        operation: Option::None,
    });
    r.push(Keyword {
        symbol: create_value_symbol(SYMBOL_ID_OPEN_SQBR),
        name: "[",
        precedence: Option::None,
        operation: Option::None,
    });
    r.push(Keyword {
        symbol: create_value_symbol(SYMBOL_ID_CLOSE_SQBR),
        name: "]",
        precedence: Option::None,
        operation: Option::None,
    });
    r.push(Keyword {
        symbol: create_value_symbol(SYMBOL_ID_OPEN_BRACE),
        name: "{",
        precedence: Option::None,
        operation: Option::None,
    });
    r.push(Keyword {
        symbol: create_value_symbol(SYMBOL_ID_CLOSE_BRACE),
        name: "}",
        precedence: Option::None,
        operation: Option::None,
    });
    r.push(Keyword {
        symbol: create_value_symbol(SYMBOL_ID_COLON),
        name: ":",
        precedence: Option::None,
        operation: Option::None,
    });
    r.push(Keyword {
        symbol: create_value_symbol(SYMBOL_ID_SEMI_COLON),
        name: ";",
        precedence: Option::None,
        operation: Option::None,
    });
    r.push(Keyword {
        symbol: create_value_symbol(0x19),
        name: "True",
        precedence: Option::None,
        operation: Option::None,
    });
    r.push(Keyword {
        symbol: falsey_symbol(0x1A),
        name: "False",
        precedence: Option::None,
        operation: Option::None,
    });
    r.push(Keyword {
        symbol: falsey_symbol(0x1B),
        name: "None",
        precedence: Option::None,
        operation: Option::None,
    });
    r.push(Keyword {
        symbol: create_value_symbol(0x1C),
        name: "__call__",
        precedence: Option::None,
        operation: Option::None,
    });
    proof {
        assert(forall|p: u64|
            p <= 0xFFFF ==> ((p | 0xFFFF_0000_0000_0000u64) & 0x0000_FFFF_FFFF_FFFFu64)
                == p) by (bit_vector);
        assert(forall|p: u64|
            p <= 0xFFFF ==> ((p | 0xFFFB_0000_0000_0000u64) & 0x0000_FFFF_FFFF_FFFFu64)
                == p) by (bit_vector);
        assert((0x19u64 | 0xFFFF_0000_0000_0000u64) == 0xFFFF_0000_0000_0019u64 && (0x1Au64
            | 0xFFFB_0000_0000_0000u64) == 0xFFFB_0000_0000_001Au64 && (0x1Bu64
            | 0xFFFB_0000_0000_0000u64) == 0xFFFB_0000_0000_001Bu64 && (0x1Cu64
            | 0xFFFF_0000_0000_0000u64) == 0xFFFF_0000_0000_001Cu64) by (bit_vector);
    }
    r
}

/// The built-in native-function modules: each binds a function name to
/// a callable value in the reserved standard-library symbol space.
pub fn builtin_modules() -> (r: Vec<Module>)
    ensures
        r@.len() == 8,
        r@[0].symbol == AV_FN_MIN_SYMBOL && r@[0].name@ == "min"@ && r@[0].value@ == AtomView::Function(NativeFn::Fn2(NativeFn2 { func: Fn2Kind::Min })),
        r@[1].symbol == AV_FN_MAX_SYMBOL && r@[1].name@ == "max"@ && r@[1].value@ == AtomView::Function(NativeFn::Fn2(NativeFn2 { func: Fn2Kind::Max })),
        r@[2].symbol == AV_FN_ABS_SYMBOL && r@[2].name@ == "abs"@ && r@[2].value@ == AtomView::Function(NativeFn::Fn1(NativeFn1 { func: Fn1Kind::Abs })),
        r@[3].symbol == AV_FN_CEIL_SYMBOL && r@[3].name@ == "ceil"@ && r@[3].value@ == AtomView::Function(NativeFn::Fn1(NativeFn1 { func: Fn1Kind::Ceil })),
        r@[4].symbol == AV_FN_FLOOR_SYMBOL && r@[4].name@ == "floor"@ && r@[4].value@ == AtomView::Function(NativeFn::Fn1(NativeFn1 { func: Fn1Kind::Floor })),
        r@[5].symbol == AV_FN_TRUNC_SYMBOL && r@[5].name@ == "truncate"@ && r@[5].value@ == AtomView::Function(NativeFn::Fn1(NativeFn1 { func: Fn1Kind::Trunc })),
        r@[6].symbol == AV_FN_ROUND_SYMBOL && r@[6].name@ == "round"@ && r@[6].value@ == AtomView::Function(NativeFn::Fn1(NativeFn1 { func: Fn1Kind::Round })),
        r@[7].symbol == AV_FN_SQRT_SYMBOL && r@[7].name@ == "sqrt"@ && r@[7].value@ == AtomView::Function(NativeFn::Fn1(NativeFn1 { func: Fn1Kind::Sqrt })),
{
    let mut r: Vec<Module> = Vec::new();
    r.push(Module { symbol: AV_FN_MIN_SYMBOL, name: "min", value: NativeFn2::create_atom(Fn2Kind::Min) });
    r.push(Module { symbol: AV_FN_MAX_SYMBOL, name: "max", value: NativeFn2::create_atom(Fn2Kind::Max) });
    r.push(Module { symbol: AV_FN_ABS_SYMBOL, name: "abs", value: NativeFn1::create_atom(Fn1Kind::Abs) });
    r.push(Module {
        symbol: AV_FN_CEIL_SYMBOL,
        name: "ceil",
        value: NativeFn1::create_atom(Fn1Kind::Ceil),
    });
    r.push(Module {
        symbol: AV_FN_FLOOR_SYMBOL,
        name: "floor",
        value: NativeFn1::create_atom(Fn1Kind::Floor),
    });
    r.push(Module {
        symbol: AV_FN_TRUNC_SYMBOL,
        name: "truncate",
        value: NativeFn1::create_atom(Fn1Kind::Trunc),
    });
    r.push(Module {
        symbol: AV_FN_ROUND_SYMBOL,
        name: "round",
        value: NativeFn1::create_atom(Fn1Kind::Round),
    });
    r.push(Module {
        symbol: AV_FN_SQRT_SYMBOL,
        name: "sqrt",
        value: NativeFn1::create_atom(Fn1Kind::Sqrt),
    });
    r
}

/// The human-readable message for an error word, by its exact stage and
/// category code. Messages speak to the user without blaming them and
/// suggest the concrete fix where one exists. The general runtime code
/// shares its value with the invalid-type code, so that value reads as
/// the invalid-type message; any unknown code falls back to the
/// mysterious-error message.
pub fn error_message(err: u64) -> (r: &'static str)
    ensures
        err == PARSE_ERR_UNTERM_STR ==> r@ == "Arevel couldn't find where this string ends. Make sure the text has matching quotation marks."@,
        err == PARSE_ERR_INVALID_FLOAT ==> r@ == "This decimal number is in a weird format."@,
        err == PARSE_ERR_UNKNOWN_TOKEN ==> r@ == "There's an unknown token in this expression."@,
        err == PARSE_ERR_UNEXPECTED_TOKEN ==> r@ == "There's a token in an unexpected location in this expression."@,
        err == PARSE_ERR_UNMATCHED_PARENS ==> r@ == "Arevel couldn't find where the brackets end. Check whether all opened brackets are closed."@,
        err == PARSE_ERR_USED_NAME ==> r@ == "That name is already being used here."@,
        err == PARSE_ERR_UNK_SYMBOL ==> r@ == "Arevel didn't recognize the symbol."@,
        err == PARSE_ERR ==> r@ == "Arevel couldn't understand this expression."@,
        err == INTERPRETER_ERR ==> r@ == "There was an unknown error while interpreting this code."@,
        err == RUNTIME_ERR_INVALID_TYPE ==> r@ == "That data type doesn't work with this operation."@,
        err == RUNTIME_ERR_TYPE_NAN ==> r@ == "This operation doesn't work with not-a-number (NaN) values."@,
        err == RUNTIME_ERR_EXPECTED_NUM ==> r@ == "Arevel expects a number here."@,
        err == RUNTIME_ERR_EXPECTED_BOOL ==> r@ == "Arevel expects a true/false boolean here."@,
        err == RUNTIME_ERR_UNK_VAL ==> r@ == "The code tried to read from an unknown value."@,
        err == RUNTIME_ERR_CIRCULAR_DEP ==> r@ == "There's a circular reference between these cells."@,
        err == RUNTIME_ERR_MEMORY_ACCESS ==> r@ == "The code tried to read from somewhere it shouldn't."@,
        err == RUNTIME_ERR_EXPECTED_STR ==> r@ == "Arevel expects some text value here."@,
        err == RUNTIME_ERR_DIV_Z ==> r@ == "Dividing by zero is undefined. Make sure the denominator is not a zero before dividing."@,
        err == RUNTIME_ERR_FN_UNK ==> r@ == "Unknown function"@,
        err == RUNTIME_ERR_FN_ARITY ==> r@ == "Unexpected number of parameters."@,
        err == RUNTIME_ERR_FN_EXPECTED ==> r@ == "Arevel expect a valid function here."@,
{
    if err == PARSE_ERR_UNTERM_STR {
        "Arevel couldn't find where this string ends. Make sure the text has matching quotation marks."
    } else if err == PARSE_ERR_INVALID_FLOAT {
        "This decimal number is in a weird format."
    } else if err == PARSE_ERR_UNKNOWN_TOKEN {
        "There's an unknown token in this expression."
    } else if err == PARSE_ERR_UNEXPECTED_TOKEN {
        "There's a token in an unexpected location in this expression."
    } else if err == PARSE_ERR_UNMATCHED_PARENS {
        "Arevel couldn't find where the brackets end. Check whether all opened brackets are closed."
    } else if err == PARSE_ERR_USED_NAME {
        "That name is already being used here."
    } else if err == PARSE_ERR_UNK_SYMBOL {
        "Arevel didn't recognize the symbol."
    } else if err == PARSE_ERR {
        "Arevel couldn't understand this expression."
    } else if err == INTERPRETER_ERR {
        "There was an unknown error while interpreting this code."
    } else if err == RUNTIME_ERR_INVALID_TYPE {
        "That data type doesn't work with this operation."
    } else if err == RUNTIME_ERR_TYPE_NAN {
        "This operation doesn't work with not-a-number (NaN) values."
    } else if err == RUNTIME_ERR_EXPECTED_NUM {
        "Arevel expects a number here."
    } else if err == RUNTIME_ERR_EXPECTED_BOOL {
        "Arevel expects a true/false boolean here."
    } else if err == RUNTIME_ERR_UNK_VAL {
        "The code tried to read from an unknown value."
    } else if err == RUNTIME_ERR_CIRCULAR_DEP {
        "There's a circular reference between these cells."
    } else if err == RUNTIME_ERR_MEMORY_ACCESS {
        "The code tried to read from somewhere it shouldn't."
    } else if err == RUNTIME_ERR_EXPECTED_STR {
        "Arevel expects some text value here."
    } else if err == RUNTIME_ERR_DIV_Z {
        "Dividing by zero is undefined. Make sure the denominator is not a zero before dividing."
    } else if err == RUNTIME_ERR_FN_UNK {
        "Unknown function"
    } else if err == RUNTIME_ERR_FN_ARITY {
        "Unexpected number of parameters."
    } else if err == RUNTIME_ERR_FN_EXPECTED {
        "Arevel expect a valid function here."
    } else if err == RUNTIME_ERR {
        "There was a mysterious error while running this code."
    } else {
        "There was a mysterious error while running this code."
    }
}

} // verus!
