//! Human-readable representations: numbers without trailing fractional
//! zeros when integral, symbols by their registered name or hex id,
//! strings raw, objects by their id.
//!
//! Integral numbers are printed by a verified decimal conversion; only
//! a number with a fractional part (or a non-finite one) is handed to
//! the host's number formatter.
use vstd::prelude::*;
use vstd::string::StringExecFns;

use crate::constants::{
    F64_EXP_MASK, F64_FRAC_MASK, F64_SIGN_MASK, SYMBOL_CALL_FN, SYMBOL_FALSE, SYMBOL_NONE,
    SYMBOL_TRUE,
};
use crate::structs::{spec_entries_view, Atom, AtomView};
use crate::utils::spec_create_value_symbol;

verus! {

/// The character for one digit value, up to base sixteen.
pub open spec fn spec_digit(d: int) -> char {
    if d == 0 {
        '0'
    } else if d == 1 {
        '1'
    } else if d == 2 {
        '2'
    } else if d == 3 {
        '3'
    } else if d == 4 {
        '4'
    } else if d == 5 {
        '5'
    } else if d == 6 {
        '6'
    } else if d == 7 {
        '7'
    } else if d == 8 {
        '8'
    } else if d == 9 {
        '9'
    } else if d == 10 {
        'A'
    } else if d == 11 {
        'B'
    } else if d == 12 {
        'C'
    } else if d == 13 {
        'D'
    } else if d == 14 {
        'E'
    } else {
        'F'
    }
}

/// The decimal digits of a number, most significant first.
pub open spec fn spec_dec(n: nat) -> Seq<char>
    decreases n,
{
    if n < 10 {
        seq![spec_digit(n as int)]
    } else {
        spec_dec(n / 10) + seq![spec_digit((n % 10) as int)]
    }
}

/// The uppercase hexadecimal digits of a number, most significant
/// first, without leading zeros.
pub open spec fn spec_hex(n: nat) -> Seq<char>
    decreases n,
{
    if n < 16 {
        seq![spec_digit(n as int)]
    } else {
        spec_hex(n / 16) + seq![spec_digit((n % 16) as int)]
    }
}

/// Append one digit character.
fn append_digit(s: &mut String, d: u64)
    requires
        d < 16,
    ensures
        final(s)@ == old(s)@ + seq![spec_digit(d as int)],
{
    let ghost pre = s@;
    if d == 0 {
        s.append("0");
        proof {
            reveal_strlit("0");
            assert(pre + "0"@ =~= pre + seq![spec_digit(d as int)]);
        }
    } else if d == 1 {
        s.append("1");
        proof {
            reveal_strlit("1");
            assert(pre + "1"@ =~= pre + seq![spec_digit(d as int)]);
        }
    } else if d == 2 {
        s.append("2");
        proof {
            reveal_strlit("2");
            assert(pre + "2"@ =~= pre + seq![spec_digit(d as int)]);
        }
    } else if d == 3 {
        s.append("3");
        proof {
            reveal_strlit("3");
            assert(pre + "3"@ =~= pre + seq![spec_digit(d as int)]);
        }
    } else if d == 4 {
        s.append("4");
        proof {
            reveal_strlit("4");
            assert(pre + "4"@ =~= pre + seq![spec_digit(d as int)]);
        }
    } else if d == 5 {
        s.append("5");
        proof {
            reveal_strlit("5");
            assert(pre + "5"@ =~= pre + seq![spec_digit(d as int)]);
        }
    } else if d == 6 {
        s.append("6");
        proof {
            reveal_strlit("6");
            assert(pre + "6"@ =~= pre + seq![spec_digit(d as int)]);
        }
    } else if d == 7 {
        s.append("7");
        proof {
            reveal_strlit("7");
            assert(pre + "7"@ =~= pre + seq![spec_digit(d as int)]);
        }
    } else if d == 8 {
        s.append("8");
        proof {
            reveal_strlit("8");
            assert(pre + "8"@ =~= pre + seq![spec_digit(d as int)]);
        }
    } else if d == 9 {
        s.append("9");
        proof {
            reveal_strlit("9");
            assert(pre + "9"@ =~= pre + seq![spec_digit(d as int)]);
        }
    } else if d == 10 {
        s.append("A");
        proof {
            reveal_strlit("A");
            assert(pre + "A"@ =~= pre + seq![spec_digit(d as int)]);
        }
    } else if d == 11 {
        s.append("B");
        proof {
            reveal_strlit("B");
            assert(pre + "B"@ =~= pre + seq![spec_digit(d as int)]);
        }
    } else if d == 12 {
        s.append("C");
        proof {
            reveal_strlit("C");
            assert(pre + "C"@ =~= pre + seq![spec_digit(d as int)]);
        }
    } else if d == 13 {
        s.append("D");
        proof {
            reveal_strlit("D");
            assert(pre + "D"@ =~= pre + seq![spec_digit(d as int)]);
        }
    } else if d == 14 {
        s.append("E");
        proof {
            reveal_strlit("E");
            assert(pre + "E"@ =~= pre + seq![spec_digit(d as int)]);
        }
    } else {
        s.append("F");
        proof {
            reveal_strlit("F");
            assert(pre + "F"@ =~= pre + seq![spec_digit(d as int)]);
        }
    }
}

/// Append the decimal digits of a number.
fn append_dec(s: &mut String, n: u64)
    ensures
        final(s)@ == old(s)@ + spec_dec(n as nat),
    decreases n,
{
    if n >= 10 {
        append_dec(s, n / 10);
    }
    append_digit(s, n % 10);
    proof {
        if n >= 10 {
            assert((old(s)@ + spec_dec((n / 10) as nat)) + seq![spec_digit((n % 10) as int)]
                =~= old(s)@ + (spec_dec((n / 10) as nat) + seq![spec_digit((n % 10) as int)]));
        }
    }
}

/// Append the uppercase hexadecimal digits of a number.
fn append_hex(s: &mut String, n: u64)
    ensures
        final(s)@ == old(s)@ + spec_hex(n as nat),
    decreases n,
{
    if n >= 16 {
        append_hex(s, n / 16);
    }
    append_digit(s, n % 16);
    proof {
        if n >= 16 {
            assert((old(s)@ + spec_hex((n / 16) as nat)) + seq![spec_digit((n % 16) as int)]
                =~= old(s)@ + (spec_hex((n / 16) as nat) + seq![spec_digit((n % 16) as int)]));
        }
    }
}

/// The decimal representation of a signed number: a leading minus for
/// negatives, then the digits of the magnitude.
pub open spec fn spec_dec_signed(v: int) -> Seq<char> {
    if v < 0 {
        seq!['-'] + spec_dec((-v) as nat)
    } else {
        spec_dec(v as nat)
    }
}

/// The integer a double's bits represent, when the double is integral
/// and within the signed 64-bit range: the mantissa with its implicit
/// leading bit, shifted by the unbiased exponent and signed. Zeroes of
/// either sign represent zero; NaNs, infinities, fractional values and
/// out-of-range magnitudes have no representation here.
pub open spec fn spec_f64_int(bits: u64) -> Option<int> {
    let exp = ((bits & F64_EXP_MASK) >> 52) as int;
    let frac = bits & F64_FRAC_MASK;
    let neg = (bits & F64_SIGN_MASK) != 0;
    if (bits & (F64_EXP_MASK | F64_FRAC_MASK)) == 0 {
        Option::Some(0int)
    } else if exp < 1023 || exp >= 1023 + 63 {
        Option::None
    } else {
        let e = exp - 1023;
        let m = (frac + 0x10_0000_0000_0000) as u64;
        if e < 52 {
            // The mantissa scaled down by two to the power of 52 - e,
            // integral exactly when the shifted-out bits are zero.
            let sh = (52 - e) as u64;
            let v = (m >> sh) as int;
            if ((m >> sh) << sh) == m {
                Option::Some(
                    if neg {
                        -v
                    } else {
                        v
                    },
                )
            } else {
                Option::None
            }
        } else {
            // The mantissa scaled up by two to the power of e - 52.
            let sh = (e - 52) as u64;
            let v = (m << sh) as int;
            Option::Some(
                if neg {
                    -v
                } else {
                    v
                },
            )
        }
    }
}

/// Extract the exact integer value of an integral double from its bits.
pub fn f64_int_value(bits: u64) -> (r: Option<i64>)
    ensures
        r matches Option::Some(v) ==> spec_f64_int(bits) == Option::Some(v as int),
        r is None ==> spec_f64_int(bits) is None,
{
    let exp = (bits & F64_EXP_MASK) >> 52;
    let frac = bits & F64_FRAC_MASK;
    let neg = (bits & F64_SIGN_MASK) != 0;
    if (bits & (F64_EXP_MASK | F64_FRAC_MASK)) == 0 {
        return Option::Some(0);
    }
    if exp < 1023 || exp >= 1023 + 63 {
        return Option::None;
    }
    proof {
        assert((bits & 0x7FF0_0000_0000_0000u64) >> 52u64 < 2048) by (bit_vector);
        assert(bits & 0x000F_FFFF_FFFF_FFFFu64 < 0x10_0000_0000_0000) by (bit_vector);
    }
    let e = exp - 1023;
    let m = frac + 0x10_0000_0000_0000;
    if e < 52 {
        let shift = 52 - e;
        let down = m >> shift;
        if (down << shift) != m {
            return Option::None;
        }
        proof {
            let sh = shift;
            assert(m < 0x20_0000_0000_0000u64 ==> (m >> sh) < 0x20_0000_0000_0000u64)
                by (bit_vector);
        }
        if neg {
            Option::Some(-(down as i64))
        } else {
            Option::Some(down as i64)
        }
    } else {
        let shift = e - 52;
        proof {
            let sh = shift;
            assert(sh <= 10 && m < 0x20_0000_0000_0000u64 ==> (m << sh)
                < 0x8000_0000_0000_0000u64) by (bit_vector);
        }
        let v = m << shift;
        if neg {
            Option::Some(-(v as i64))
        } else {
            Option::Some(v as i64)
        }
    }
}

/// What a number prints as: integral values print their integer without
/// trailing fractional zeros; anything else is the host formatter's
/// text for the bits.
pub fn repr_number<F: Fn(u64) -> String>(number: u64, fmt: &F) -> (r: String)
    requires
        forall|x: (u64,)| #[trigger] call_requires(*fmt, x),
    ensures
        spec_f64_int(number) matches Option::Some(v) ==> r@ == spec_dec_signed(v),
        spec_f64_int(number) is None ==> call_ensures(*fmt, (number,), r),
{
    match f64_int_value(number) {
        Option::Some(v) => {
            let mut s = String::new();
            if v < 0 {
                s.append("-");
                proof {
                    reveal_strlit("-");
                    assert("-"@ =~= seq!['-']);
                }
                let magnitude = if v == i64::MIN {
                    0x8000_0000_0000_0000u64
                } else {
                    (-v) as u64
                };
                append_dec(&mut s, magnitude);
            } else {
                append_dec(&mut s, v as u64);
            }
            s
        },
        Option::None => fmt(number),
    }
}

/// What a symbol prints as: its registered name if it is a reserved
/// keyword, else its hexadecimal id.
pub open spec fn spec_repr_symbol(symbol: u64) -> Seq<char> {
    if symbol == spec_create_value_symbol(0x00) {
        ","@
    } else if symbol == spec_create_value_symbol(0x01) {
        "="@
    } else if symbol == spec_create_value_symbol(0x02) {
        "or"@
    } else if symbol == spec_create_value_symbol(0x03) {
        "and"@
    } else if symbol == spec_create_value_symbol(0x04) {
        "not"@
    } else if symbol == spec_create_value_symbol(0x05) {
        "=="@
    } else if symbol == spec_create_value_symbol(0x06) {
        "!="@
    } else if symbol == spec_create_value_symbol(0x07) {
        "<"@
    } else if symbol == spec_create_value_symbol(0x08) {
        "<="@
    } else if symbol == spec_create_value_symbol(0x09) {
        ">"@
    } else if symbol == spec_create_value_symbol(0x0A) {
        ">="@
    } else if symbol == spec_create_value_symbol(0x0B) {
        "+"@
    } else if symbol == spec_create_value_symbol(0x0C) {
        "-"@
    } else if symbol == spec_create_value_symbol(0x0D) {
        "*"@
    } else if symbol == spec_create_value_symbol(0x0E) {
        "/"@
    } else if symbol == spec_create_value_symbol(0x0F) {
        "%"@
    } else if symbol == spec_create_value_symbol(0x10) {
        "."@
    } else if symbol == spec_create_value_symbol(0x11) {
        "("@
    } else if symbol == spec_create_value_symbol(0x12) {
        ")"@
    } else if symbol == spec_create_value_symbol(0x13) {
        "["@
    } else if symbol == spec_create_value_symbol(0x14) {
        "]"@
    } else if symbol == spec_create_value_symbol(0x15) {
        "{"@
    } else if symbol == spec_create_value_symbol(0x16) {
        "}"@
    } else if symbol == spec_create_value_symbol(0x17) {
        ":"@
    } else if symbol == spec_create_value_symbol(0x18) {
        ";"@
    } else if symbol == SYMBOL_TRUE {
        "True"@
    } else if symbol == SYMBOL_FALSE {
        "False"@
    } else if symbol == SYMBOL_NONE {
        "None"@
    } else if symbol == SYMBOL_CALL_FN {
        "__call__"@
    } else {
        spec_hex(symbol as nat)
    }
}

/// Print a symbol: the registered name of a reserved keyword, else the
/// hexadecimal id.
pub fn repr_symbol(symbol: &u64) -> (r: String)
    ensures
        r@ == spec_repr_symbol(*symbol),
{
    let s = *symbol;
    if s == crate::utils::create_value_symbol(0x00) {
        String::from_str(",")
    } else if s == crate::utils::create_value_symbol(0x01) {
        String::from_str("=")
    } else if s == crate::utils::create_value_symbol(0x02) {
        String::from_str("or")
    } else if s == crate::utils::create_value_symbol(0x03) {
        String::from_str("and")
    } else if s == crate::utils::create_value_symbol(0x04) {
        String::from_str("not")
    } else if s == crate::utils::create_value_symbol(0x05) {
        String::from_str("==")
    } else if s == crate::utils::create_value_symbol(0x06) {
        String::from_str("!=")
    } else if s == crate::utils::create_value_symbol(0x07) {
        String::from_str("<")
    } else if s == crate::utils::create_value_symbol(0x08) {
        String::from_str("<=")
    } else if s == crate::utils::create_value_symbol(0x09) {
        String::from_str(">")
    } else if s == crate::utils::create_value_symbol(0x0A) {
        String::from_str(">=")
    } else if s == crate::utils::create_value_symbol(0x0B) {
        String::from_str("+")
    } else if s == crate::utils::create_value_symbol(0x0C) {
        String::from_str("-")
    } else if s == crate::utils::create_value_symbol(0x0D) {
        String::from_str("*")
    } else if s == crate::utils::create_value_symbol(0x0E) {
        String::from_str("/")
    } else if s == crate::utils::create_value_symbol(0x0F) {
        String::from_str("%")
    } else if s == crate::utils::create_value_symbol(0x10) {
        String::from_str(".")
    } else if s == crate::utils::create_value_symbol(0x11) {
        String::from_str("(")
    } else if s == crate::utils::create_value_symbol(0x12) {
        String::from_str(")")
    } else if s == crate::utils::create_value_symbol(0x13) {
        String::from_str("[")
    } else if s == crate::utils::create_value_symbol(0x14) {
        String::from_str("]")
    } else if s == crate::utils::create_value_symbol(0x15) {
        String::from_str("{")
    } else if s == crate::utils::create_value_symbol(0x16) {
        String::from_str("}")
    } else if s == crate::utils::create_value_symbol(0x17) {
        String::from_str(":")
    } else if s == crate::utils::create_value_symbol(0x18) {
        String::from_str(";")
    } else if s == SYMBOL_TRUE {
        String::from_str("True")
    } else if s == SYMBOL_FALSE {
        String::from_str("False")
    } else if s == SYMBOL_NONE {
        String::from_str("None")
    } else if s == SYMBOL_CALL_FN {
        String::from_str("__call__")
    } else {
        let mut out = String::new();
        append_hex(&mut out, s);
        out
    }
}

/// The middle lines of a printed mapping: one line per entry, the key
/// in hexadecimal and then the entry's printed value.
pub open spec fn spec_map_text(keys: Seq<u64>, reprs: Seq<Seq<char>>) -> Seq<char>
    decreases keys.len(),
{
    if keys.len() == 0 {
        Seq::empty()
    } else {
        spec_map_text(keys.drop_last(), reprs.drop_last()) + seq!['\n', '\t'] + spec_hex(
            keys.last() as nat,
        ) + seq![':', ' '] + reprs.last()
    }
}

/// What an atom prints as: numbers through the numeric rule, strings
/// raw, symbols through the symbol rule, objects by their id, mappings
/// as braced lines of key and printed value, and functions as an
/// opaque marker.
pub open spec fn spec_repr_atom<F: Fn(u64) -> String>(
    fmt: F,
    atom: AtomView,
    r: Seq<char>,
) -> bool
    decreases atom,
{
    match atom {
        AtomView::Numeric(num) => {
            match spec_f64_int(num) {
                Option::Some(v) => r == spec_dec_signed(v),
                Option::None => exists|out: String|
                    #![auto]
                    call_ensures(fmt, (num,), out) && r == out@,
            }
        },
        AtomView::Str(text) => r == text,
        AtomView::Symbol(symbol) => r == spec_repr_symbol(symbol),
        AtomView::Object(obj) => r == spec_dec(obj.id as nat),
        AtomView::Mapping(entries) => exists|reprs: Seq<Seq<char>>|
            {
                &&& reprs.len() == entries.len()
                &&& (forall|i: int|
                    0 <= i < entries.len() ==> spec_repr_atom(
                        fmt,
                        entries[i].1,
                        #[trigger] reprs[i],
                    ))
                &&& r == seq!['{'] + spec_map_text(
                    entries.map_values(|p: (u64, AtomView)| p.0),
                    reprs,
                ) + seq!['\n', '}']
            },
        AtomView::Function(_) => r == "<Function>"@,
    }
}

/// Print an atom for a human.
pub fn repr_atom<F: Fn(u64) -> String>(atom: &Atom, fmt: &F) -> (r: String)
    requires
        forall|x: (u64,)| #[trigger] call_requires(*fmt, x),
    ensures
        spec_repr_atom(*fmt, atom@, r@),
    decreases *atom,
{
    match atom {
        Atom::NumericValue(num) => repr_number(*num, fmt),
        Atom::StringValue(str_val) => str_val.clone(),
        Atom::SymbolValue(symbol) => repr_symbol(symbol),
        Atom::ObjectValue(obj_val) => {
            let mut out = String::new();
            append_dec(&mut out, obj_val.id);
            out
        },
        Atom::HashMapValue(entries) => fmt_symbols_map(entries, fmt),
        Atom::FunctionValue(_) => String::from_str("<Function>"),
    }
}

/// Print a mapping from symbol ids to values: an opening brace, one
/// line per entry with the key in hexadecimal and the entry's printed
/// value, and a closing brace.
pub fn fmt_symbols_map<F: Fn(u64) -> String>(pairs: &Vec<(u64, Atom)>, fmt: &F) -> (r: String)
    requires
        forall|x: (u64,)| #[trigger] call_requires(*fmt, x),
    ensures
        spec_repr_atom(*fmt, AtomView::Mapping(spec_entries_view(pairs@)), r@),
    decreases *pairs,
{
    broadcast use vstd::std_specs::vec::axiom_vec_index_decreases;

    let ghost entries = spec_entries_view(pairs@);
    let ghost keys = entries.map_values(|p: (u64, AtomView)| p.0);
    let mut out = String::from_str("{");
    proof {
        crate::structs::lemma_entries_view(pairs@);
        reveal_strlit("{");
        assert("{"@ =~= seq!['{']);
    }
    let ghost mut reprs: Seq<Seq<char>> = Seq::empty();
    let mut i: usize = 0;
    while i < pairs.len()
        invariant
            forall|x: (u64,)| #[trigger] call_requires(*fmt, x),
            i <= pairs@.len(),
            entries == spec_entries_view(pairs@),
            keys == entries.map_values(|p: (u64, AtomView)| p.0),
            reprs.len() == i,
            forall|j: int|
                0 <= j < i ==> spec_repr_atom(*fmt, entries[j].1, #[trigger] reprs[j]),
            out@ == seq!['{'] + spec_map_text(keys.take(i as int), reprs),
        decreases pairs@.len() - i,
    {
        out.append("\n\t");
        proof {
            reveal_strlit("\n\t");
            assert("\n\t"@ =~= seq!['\n', '\t']);
        }
        append_hex(&mut out, pairs[i].0);
        out.append(": ");
        proof {
            reveal_strlit(": ");
            assert(": "@ =~= seq![':', ' ']);
        }
        let piece = repr_atom(&pairs[i].1, fmt);
        out.append(piece.as_str());
        proof {
            crate::structs::lemma_entries_view(pairs@);
            assert(entries[i as int] == (pairs@[i as int].0, pairs@[i as int].1@));
            assert(pairs@[i as int].1@ == entries[i as int].1);
            let ghost pre_reprs = reprs;
            reprs = reprs.push(piece@);
            assert(keys.len() == entries.len());
            assert(keys.take(i + 1 as int).drop_last() =~= keys.take(i as int));
            assert(reprs.drop_last() =~= pre_reprs);
            assert(keys.take(i + 1 as int).last() == keys[i as int]);
            assert(keys[i as int] == entries[i as int].0);
            assert(keys[i as int] == pairs@[i as int].0);
            assert(out@ =~= seq!['{'] + spec_map_text(keys.take(i + 1 as int), reprs));
        }
        i = i + 1;
    }
    out.append("\n}");
    proof {
        crate::structs::lemma_entries_view(pairs@);
        reveal_strlit("\n}");
        assert("\n}"@ =~= seq!['\n', '}']);
        assert(keys.len() == entries.len());
        assert(keys.take(keys.len() as int) =~= keys);
        assert(out@ =~= seq!['{'] + spec_map_text(keys, reprs) + seq!['\n', '}']);
        assert(reprs.len() == entries.len() && (forall|j: int|
            0 <= j < entries.len() ==> spec_repr_atom(*fmt, entries[j].1, #[trigger] reprs[j]))
            && out@ == seq!['{'] + spec_map_text(
            entries.map_values(|p: (u64, AtomView)| p.0),
            reprs,
        ) + seq!['\n', '}']);
        assert(spec_repr_atom(*fmt, AtomView::Mapping(entries), out@));
    }
    out
}

/// The hexadecimal ids of a list of symbols, joined by commas.
pub open spec fn spec_symbols_list(list: Seq<u64>) -> Seq<char>
    decreases list.len(),
{
    if list.len() == 0 {
        Seq::empty()
    } else if list.len() == 1 {
        spec_hex(list[0] as nat)
    } else {
        spec_symbols_list(list.drop_last()) + seq![','] + spec_hex(list.last() as nat)
    }
}

/// Print a list of symbols as comma-joined hexadecimal ids.
pub fn fmt_symbols_list(list: &Vec<u64>) -> (r: String)
    ensures
        r@ == spec_symbols_list(list@),
{
    let mut out = String::new();
    let mut i: usize = 0;
    while i < list.len()
        invariant
            i <= list@.len(),
            out@ == spec_symbols_list(list@.take(i as int)),
        decreases list@.len() - i,
    {
        if i > 0 {
            out.append(",");
            proof {
                reveal_strlit(",");
                assert(","@ =~= seq![',']);
            }
        }
        append_hex(&mut out, list[i]);
        proof {
            assert(list@.take(i + 1 as int).drop_last() =~= list@.take(i as int));
            assert(list@.take(i + 1 as int).last() == list@[i as int]);
        }
        i = i + 1;
    }
    proof {
        assert(list@.take(list@.len() as int) =~= list@);
    }
    out
}

} // verus!
