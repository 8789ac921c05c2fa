//! Core data types: materialized values (`Atom`), bindings (`Identifier`),
//! reserved keywords, built-in modules, and generic records (`AvObject`).
use vstd::prelude::*;

verus! {

broadcast use vstd::std_specs::vec::axiom_vec_index_decreases;

#[derive(Debug, PartialEq, Eq, Structural, Clone, Copy)]
pub enum ValueType {
    NumericType,
    StringType,
    ObjectType,
    SymbolType,
    HashMapType,
}

/// A one-argument native function, identified by name.
#[derive(Debug, PartialEq, Eq, Structural, Clone, Copy)]
pub enum Fn1Kind {
    Abs,
    Ceil,
    Floor,
    Trunc,
    Round,
    Sqrt,
}

/// A two-argument native function, identified by name.
#[derive(Debug, PartialEq, Eq, Structural, Clone, Copy)]
pub enum Fn2Kind {
    Min,
    Max,
}

#[derive(Debug, PartialEq, Eq, Structural, Clone, Copy)]
pub struct NativeFn1 {
    pub func: Fn1Kind,
}

#[derive(Debug, PartialEq, Eq, Structural, Clone, Copy)]
pub struct NativeFn2 {
    pub func: Fn2Kind,
}

/// The three-argument arity. It exists in the calling convention, but
/// no built-in of this arity is registered.
#[derive(Debug, PartialEq, Eq, Structural, Clone, Copy)]
pub struct NativeFn3 {
}

/// A native function tagged by its fixed arity.
#[derive(Debug, PartialEq, Eq, Structural, Clone, Copy)]
pub enum NativeFn {
    Fn1(NativeFn1),
    Fn2(NativeFn2),
    Fn3(NativeFn3),
}

impl NativeFn1 {
    pub fn create_atom(func: Fn1Kind) -> (r: Atom)
        ensures
            r@ == AtomView::Function(NativeFn::Fn1(NativeFn1 { func })),
    {
        Atom::FunctionValue(NativeFn::Fn1(NativeFn1 { func }))
    }
}

impl NativeFn2 {
    pub fn create_atom(func: Fn2Kind) -> (r: Atom)
        ensures
            r@ == AtomView::Function(NativeFn::Fn2(NativeFn2 { func })),
    {
        Atom::FunctionValue(NativeFn::Fn2(NativeFn2 { func }))
    }
}

/// A generic record: fields addressed by index, pre-sizable. The id and
/// class are truncated symbol ids; the value store is unallocated for
/// plain strings.
pub struct AvObject {
    pub id: u64,
    pub av_class: u64,
    pub av_values: Option<Vec<u64>>,
}

pub ghost struct AvObjectView {
    pub id: u64,
    pub av_class: u64,
    pub av_values: Option<Seq<u64>>,
}

impl View for AvObject {
    type V = AvObjectView;

    open spec fn view(&self) -> AvObjectView {
        AvObjectView {
            id: self.id,
            av_class: self.av_class,
            av_values: match self.av_values {
                Option::Some(v) => Option::Some(v@),
                Option::None => Option::None,
            },
        }
    }
}

impl AvObject {
    /// Allocate an empty record with no value store.
    pub fn new() -> (r: AvObject)
        ensures
            r@ == (AvObjectView { id: 0, av_class: 0, av_values: Option::None }),
    {
        AvObject { id: 0, av_class: 0, av_values: Option::None }
    }

    /// Pre-reserve space for results that are saved out of order. Without
    /// an allocated store this does nothing; growth fills with zeroes.
    pub fn resize_values(&mut self, new_len: usize)
        ensures
            old(self)@.av_values is None ==> final(self)@ == old(self)@,
            old(self)@.av_values matches Option::Some(v) ==> {
                &&& final(self)@.av_values matches Option::Some(w)
                &&& w.len() == new_len
                &&& forall|i: int|
                    0 <= i < new_len ==> w[i] == (if i < v.len() {
                        v[i]
                    } else {
                        0u64
                    })
                &&& final(self)@.id == old(self)@.id
                &&& final(self)@.av_class == old(self)@.av_class
            },
    {
        match &mut self.av_values {
            Option::Some(values) => {
                values.resize(new_len, 0);
                proof {
                    let v = old(self)@.av_values->Some_0;
                    let w = self@.av_values->Some_0;
                    assert forall|i: int| 0 <= i < new_len implies w[i] == (if i < v.len() {
                        v[i]
                    } else {
                        0u64
                    }) by {
                        if new_len <= v.len() {
                            assert(w == v.subrange(0, new_len as int));
                        } else if i < v.len() {
                            assert(w.subrange(0, v.len() as int) == v);
                            assert(w.subrange(0, v.len() as int)[i] == w[i]);
                        }
                    }
                }
            },
            Option::None => {},
        }
    }

    /// Store a field at an index of the allocated store; a record without
    /// a store ignores the write.
    pub fn save_value(&mut self, index: usize, value: u64)
        requires
            old(self)@.av_values matches Option::Some(v) ==> index < v.len(),
        ensures
            old(self)@.av_values is None ==> final(self)@ == old(self)@,
            old(self)@.av_values matches Option::Some(v) ==> final(self)@ == (AvObjectView {
                av_values: Option::Some(v.update(index as int, value)),
                ..old(self)@
            }),
    {
        match &mut self.av_values {
            Option::Some(values) => {
                values.set(index, value);
            },
            Option::None => {},
        }
    }

    /// Read a field by index; the store must be allocated and the index
    /// in range.
    pub fn get_value(&mut self, index: usize) -> (r: u64)
        requires
            old(self)@.av_values matches Option::Some(v) && index < v.len(),
        ensures
            final(self)@ == old(self)@,
            r == old(self)@.av_values->Some_0[index as int],
    {
        match &self.av_values {
            Option::Some(values) => values[index],
            Option::None => 0,  // unreachable under the precondition
        }
    }

    /// An owned copy with the same fields.
    pub fn duplicate(&self) -> (r: AvObject)
        ensures
            r@ == self@,
    {
        AvObject {
            id: self.id,
            av_class: self.av_class,
            av_values: match &self.av_values {
                Option::Some(values) => {
                    let copy = copy_words(values);
                    Option::Some(copy)
                },
                Option::None => Option::None,
            },
        }
    }
}

/// An element-for-element copy of a word vector.
fn copy_words(values: &Vec<u64>) -> (r: Vec<u64>)
    ensures
        r@ == values@,
{
    let mut r: Vec<u64> = Vec::new();
    let mut i: usize = 0;
    while i < values.len()
        invariant
            i <= values.len(),
            r@ == values@.subrange(0, i as int),
        decreases values.len() - i,
    {
        r.push(values[i]);
        assert(r@ == values@.subrange(0, i + 1 as int));
        i = i + 1;
    }
    assert(values@.subrange(0, values@.len() as int) == values@);
    r
}

/// A materialized value: the fully resolved form of a tagged word.
/// Numbers are carried as the bit pattern of the double they decode to;
/// a mapping from symbol ids to values is carried as its entry pairs.
pub enum Atom {
    NumericValue(u64),
    StringValue(String),
    SymbolValue(u64),
    ObjectValue(AvObject),
    HashMapValue(Vec<(u64, Atom)>),
    FunctionValue(NativeFn),
}

pub ghost enum AtomView {
    Numeric(u64),
    Str(Seq<char>),
    Symbol(u64),
    Object(AvObjectView),
    Mapping(Seq<(u64, AtomView)>),
    Function(NativeFn),
}

/// The entry pairs of a mapping, each value by its view.
pub open spec fn spec_entries_view(entries: Seq<(u64, Atom)>) -> Seq<(u64, AtomView)>
    decreases entries,
{
    if entries.len() == 0 {
        Seq::empty()
    } else {
        spec_entries_view(entries.drop_last()).push(
            (entries.last().0, entries.last().1@),
        )
    }
}

/// An entry list views entry by entry: the same length, each key kept
/// and each value by its view.
pub proof fn lemma_entries_view(entries: Seq<(u64, Atom)>)
    ensures
        spec_entries_view(entries).len() == entries.len(),
        forall|i: int|
            0 <= i < entries.len() ==> #[trigger] spec_entries_view(entries)[i] == (
            entries[i].0,
            entries[i].1@,
            ),
    decreases entries.len(),
{
    if entries.len() > 0 {
        lemma_entries_view(entries.drop_last());
        assert(spec_entries_view(entries) == spec_entries_view(entries.drop_last()).push(
            (entries.last().0, entries.last().1@),
        ));
        assert forall|i: int|
            0 <= i < entries.len() implies #[trigger] spec_entries_view(entries)[i] == (
            entries[i].0,
            entries[i].1@,
        ) by {
            if i < entries.len() - 1 {
                assert(entries.drop_last()[i] == entries[i]);
                assert(spec_entries_view(entries)[i] == spec_entries_view(
                    entries.drop_last(),
                )[i]);
            } else {
                assert(entries[i] == entries.last());
            }
        }
    }
}

impl View for Atom {
    type V = AtomView;

    open spec fn view(&self) -> AtomView
        decreases self,
    {
        match self {
            Atom::NumericValue(n) => AtomView::Numeric(*n),
            Atom::StringValue(s) => AtomView::Str(s@),
            Atom::SymbolValue(s) => AtomView::Symbol(*s),
            Atom::ObjectValue(o) => AtomView::Object(o@),
            Atom::HashMapValue(entries) => AtomView::Mapping(spec_entries_view(entries@)),
            Atom::FunctionValue(f) => AtomView::Function(*f),
        }
    }
}

impl DeepView for Atom {
    type V = AtomView;

    open spec fn deep_view(&self) -> AtomView {
        self.view()
    }
}

impl Atom {
    /// An owned copy with the same view.
    pub fn duplicate(&self) -> (r: Atom)
        ensures
            r@ == self@,
        decreases *self,
    {
        match self {
            Atom::NumericValue(n) => Atom::NumericValue(*n),
            Atom::StringValue(s) => Atom::StringValue(s.clone()),
            Atom::SymbolValue(s) => Atom::SymbolValue(*s),
            Atom::ObjectValue(o) => Atom::ObjectValue(o.duplicate()),
            Atom::HashMapValue(entries) => {
                let copy = duplicate_entries(entries);
                proof {
                    assert(spec_entries_view(copy@) =~= spec_entries_view(entries@));
                }
                Atom::HashMapValue(copy)
            },
            Atom::FunctionValue(f) => Atom::FunctionValue(*f),
        }
    }
}

/// An entry-for-entry copy of a mapping's pairs, equal view for view.
fn duplicate_entries(entries: &Vec<(u64, Atom)>) -> (r: Vec<(u64, Atom)>)
    ensures
        spec_entries_view(r@) == spec_entries_view(entries@),
    decreases *entries,
{
    broadcast use vstd::std_specs::vec::axiom_vec_index_decreases;

    let mut r: Vec<(u64, Atom)> = Vec::new();
    let mut i: usize = 0;
    while i < entries.len()
        invariant
            i <= entries@.len(),
            spec_entries_view(r@) == spec_entries_view(entries@.take(i as int)),
        decreases entries@.len() - i,
    {
        let entry = &entries[i];
        proof {
            assert(entries@[i as int] == *entry);
        }
        let ghost pre_r = r@;
        let value = entry.1.duplicate();
        r.push((entry.0, value));
        proof {
            lemma_entries_view(pre_r);
            lemma_entries_view(r@);
            lemma_entries_view(entries@.take(i as int));
            lemma_entries_view(entries@.take(i + 1 as int));
            assert forall|j: int|
                0 <= j < i + 1 implies #[trigger] spec_entries_view(r@)[j] == spec_entries_view(
                entries@.take(i + 1 as int),
            )[j] by {
                assert(entries@.take(i + 1 as int)[j] == entries@[j]);
                if j < i {
                    assert(r@[j] == pre_r[j]);
                    assert(spec_entries_view(pre_r)[j] == spec_entries_view(
                        entries@.take(i as int),
                    )[j]);
                    assert(entries@.take(i as int)[j] == entries@[j]);
                }
            }
            assert(spec_entries_view(r@) =~= spec_entries_view(entries@.take(i + 1 as int)));
        }
        i = i + 1;
    }
    proof {
        assert(entries@.take(entries@.len() as int) =~= entries@);
    }
    r
}

/// The authoritative binding for a symbol inside one scope: an optional
/// display name and an optional materialized value.
pub struct Identifier {
    pub symbol: u64,
    pub name: Option<String>,
    pub value: Option<Atom>,
}

pub ghost struct IdentifierView {
    pub symbol: u64,
    pub name: Option<Seq<char>>,
    pub value: Option<AtomView>,
}

impl View for Identifier {
    type V = IdentifierView;

    open spec fn view(&self) -> IdentifierView {
        IdentifierView {
            symbol: self.symbol,
            name: match &self.name {
                Option::Some(n) => Option::Some(n@),
                Option::None => Option::None,
            },
            value: match &self.value {
                Option::Some(v) => Option::Some(v@),
                Option::None => Option::None,
            },
        }
    }
}

impl Identifier {
    /// An owned copy with the same view.
    pub fn duplicate(&self) -> (r: Identifier)
        ensures
            r@ == self@,
    {
        Identifier {
            symbol: self.symbol,
            name: match &self.name {
                Option::Some(n) => Option::Some(n.clone()),
                Option::None => Option::None,
            },
            value: match &self.value {
                Option::Some(v) => Option::Some(v.duplicate()),
                Option::None => Option::None,
            },
        }
    }
}

/// A symbol paired with its value, for contiguous storage.
pub struct SymbolAtom {
    pub symbol: u64,
    pub atom: Atom,
}

/// A numeric operation delegated to the host's floating-point unit.
/// Unary operations receive zero as their unused second operand.
#[derive(Debug, PartialEq, Eq, Structural, Clone, Copy)]
pub enum NumOp {
    Add,
    Sub,
    Mul,
    Div,
    Ceil,
    Floor,
    Trunc,
    Round,
    Sqrt,
}

/// The operation a reserved binary operator performs.
#[derive(Debug, PartialEq, Eq, Structural, Clone, Copy)]
pub enum BinOp {
    Or,
    And,
    Lt,
    Lte,
    Gt,
    Gte,
    Add,
    Sub,
    Mul,
    Div,
}

/// A reserved, compile-time-known symbol: operator, punctuation or
/// literal, with its parsing precedence and binary operation, if any.
pub struct Keyword {
    pub symbol: u64,
    pub name: &'static str,
    pub precedence: Option<u8>,
    pub operation: Option<BinOp>,
}

impl PartialEq for Keyword {
    fn eq(&self, other: &Self) -> (r: bool) {
        self.symbol == other.symbol
    }
}

impl vstd::std_specs::cmp::PartialEqSpecImpl for Keyword {
    open spec fn obeys_eq_spec() -> bool {
        true
    }

    open spec fn eq_spec(&self, other: &Self) -> bool {
        self.symbol == other.symbol
    }
}

/// A built-in module binding: a function name bound to a callable value.
pub struct Module {
    pub symbol: u64,
    pub name: &'static str,
    pub value: Atom,
}

impl PartialEq for Module {
    fn eq(&self, other: &Self) -> (r: bool) {
        self.symbol == other.symbol
    }
}

impl vstd::std_specs::cmp::PartialEqSpecImpl for Module {
    open spec fn obeys_eq_spec() -> bool {
        true
    }

    open spec fn eq_spec(&self, other: &Self) -> bool {
        self.symbol == other.symbol
    }
}

} // verus!
