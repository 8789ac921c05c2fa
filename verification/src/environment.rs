//! A scope: its name index, its identifier store, an optional parent
//! scope, and the pointer-chasing resolver.
//!
//! A scope may read its ancestors but never a child or sibling scope:
//! lookups fall back outward along the parent chain and stop at the
//! first scope that resolves the name or symbol.
use std::collections::HashMap;

use vstd::prelude::*;
use vstd::string::StrSliceExecFns;

use crate::constants::RESOLVE_DEPTH_LIMIT;
use crate::expression::Expression;
use crate::structs::{Atom, AtomView, Identifier, IdentifierView};
use crate::types::{is_number, is_pointer, is_symbol, spec_is_number, spec_is_pointer,
    spec_is_symbol};
use crate::utils::{create_pointer_symbol, spec_create_pointer_symbol};

verus! {

broadcast use vstd::std_specs::hash::group_hash_axioms;

/// The uppercase form of a piece of text, by the host language's full
/// case mapping; named here, never restated.
pub uninterp spec fn upper_of(s: Seq<char>) -> Seq<char>;

/// A piece of text with its leading and trailing whitespace removed;
/// named here, never restated.
pub uninterp spec fn trimmed_of(s: Seq<char>) -> Seq<char>;

/// The normalized key a name binds and resolves under: the name
/// trimmed, then uppercased.
pub open spec fn spec_norm_key(s: Seq<char>) -> Seq<char> {
    upper_of(trimmed_of(s))
}

/// Relies on str::to_uppercase: the uppercase mapping of the
/// characters, depending on the characters alone.
#[verifier::external_body]
fn to_uppercase_str(s: &str) -> (r: String)
    ensures
        r@ == upper_of(s@),
{
    s.to_uppercase()
}

/// Relies on str::trim: leading and trailing whitespace removed,
/// depending on the characters alone.
#[verifier::external_body]
fn trim_str<'a>(s: &'a str) -> (r: &'a str)
    ensures
        r@ == trimmed_of(s@),
{
    s.trim()
}

/// The characters of a piece of text, one by one.
fn chars_of(s: &str) -> (r: Vec<char>)
    ensures
        r@ == s@,
{
    let mut r: Vec<char> = Vec::new();
    let len = s.unicode_len();
    let mut i: usize = 0;
    while i < len
        invariant
            i <= len,
            len == s@.len(),
            r@ =~= s@.take(i as int),
        decreases len - i,
    {
        r.push(s.get_char(i));
        assert(r@ =~= s@.take(i + 1 as int));
        i = i + 1;
    }
    assert(s@.take(len as int) =~= s@);
    r
}

/// The normalized form of a name: trimmed, then uppercased.
fn normalize_name(name: &str) -> (r: Vec<char>)
    ensures
        r@ == spec_norm_key(name@),
{
    let upper = to_uppercase_str(trim_str(name));
    chars_of(upper.as_str())
}

/// The name index as a map, first binding for a name winning.
pub open spec fn spec_names_map(entries: Seq<(Vec<char>, u64)>) -> Map<Seq<char>, u64>
    decreases entries.len(),
{
    if entries.len() == 0 {
        Map::empty()
    } else {
        let m = spec_names_map(entries.drop_last());
        let e = entries.last();
        if m.contains_key(e.0@) {
            m
        } else {
            m.insert(e.0@, e.1)
        }
    }
}

/// A scope. Pure functions are scoped to their parameters, with no
/// parent; the global scope owns the program body.
pub struct Environment {
    pub parent: Option<Box<Environment>>,
    /// Normalized uppercase name, to the symbol defined under it in this
    /// scope.
    pub normname_symbols: Vec<(Vec<char>, u64)>,
    /// Symbol id, to its metadata and value.
    pub identifiers: HashMap<u64, Identifier>,
    /// The cells of this evaluation unit.
    pub body: Vec<Expression>,
    pub next_symbol_id: u64,
}

impl Environment {
    /// The name index of this scope alone.
    pub open spec fn names(&self) -> Map<Seq<char>, u64> {
        spec_names_map(self.normname_symbols@)
    }

    /// The identifier store of this scope alone.
    pub open spec fn ids(&self) -> Map<u64, Identifier> {
        self.identifiers@
    }

    /// Symbol lookup through this scope and its ancestors, innermost
    /// first.
    pub open spec fn spec_lookup(&self, symbol: u64) -> Option<Identifier>
        decreases *self,
    {
        if self.ids().contains_key(symbol) {
            Option::Some(self.ids()[symbol])
        } else {
            match &self.parent {
                Option::Some(p) => p.spec_lookup(symbol),
                Option::None => Option::None,
            }
        }
    }

    /// Name lookup through this scope and its ancestors, innermost
    /// first; the name is already normalized.
    pub open spec fn spec_lookup_name(&self, norm: Seq<char>) -> Option<u64>
        decreases *self,
    {
        if self.names().contains_key(norm) {
            Option::Some(self.names()[norm])
        } else {
            match &self.parent {
                Option::Some(p) => p.spec_lookup_name(norm),
                Option::None => Option::None,
            }
        }
    }

    pub fn new(next_symbol_id: u64) -> (r: Environment)
        ensures
            r.parent is None,
            r.names() =~= Map::<Seq<char>, u64>::empty(),
            r.ids() =~= Map::<u64, Identifier>::empty(),
            r.body@ =~= Seq::<Expression>::empty(),
            r.next_symbol_id == next_symbol_id,
    {
        Environment {
            parent: Option::None,
            normname_symbols: Vec::new(),
            identifiers: HashMap::new(),
            body: Vec::new(),
            next_symbol_id,
        }
    }

    /// Mint a fresh pointer-tagged symbol, unique within this scope
    /// because the counter only ever grows.
    pub fn define_identifier(&mut self) -> (r: u64)
        requires
            old(self).next_symbol_id < u64::MAX,
        ensures
            r == spec_create_pointer_symbol(old(self).next_symbol_id),
            final(self).next_symbol_id == old(self).next_symbol_id + 1,
            final(self).parent == old(self).parent,
            final(self).normname_symbols == old(self).normname_symbols,
            final(self).identifiers == old(self).identifiers,
            final(self).body == old(self).body,
    {
        let next_symbol: u64 = create_pointer_symbol(self.next_symbol_id);
        self.next_symbol_id = self.next_symbol_id + 1;
        next_symbol
    }

    /// Bind a name to a symbol within this scope. The first binding for
    /// a normalized (trimmed, uppercased) name wins; rebinding the
    /// display name of an existing symbol always succeeds.
    pub fn bind_name(&mut self, symbol: u64, name: String)
        ensures
            final(self).parent == old(self).parent,
            final(self).body == old(self).body,
            final(self).next_symbol_id == old(self).next_symbol_id,
            final(self).names() == (if old(self).names().contains_key(spec_norm_key(name@)) {
                old(self).names()
            } else {
                old(self).names().insert(spec_norm_key(name@), symbol)
            }),
            final(self).ids().dom() == old(self).ids().dom().insert(symbol),
            forall|s: u64|
                s != symbol && old(self).ids().contains_key(s) ==> final(self).ids()[s] == old(
                    self,
                ).ids()[s],
            final(self).ids()[symbol]@ == (IdentifierView {
                symbol: if old(self).ids().contains_key(symbol) {
                    old(self).ids()[symbol]@.symbol
                } else {
                    symbol
                },
                name: Option::Some(name@),
                value: if old(self).ids().contains_key(symbol) {
                    old(self).ids()[symbol]@.value
                } else {
                    Option::None
                },
            }),
    {
        let uname = normalize_name(name.as_str());

        if !self.contains_norm_name(&uname) {
            self.normname_symbols.push((uname, symbol));
            proof {
                assert(self.normname_symbols@.drop_last() =~= old(self).normname_symbols@);
            }
        }

        let updated: Identifier = match self.identifiers.get(&symbol) {
            Option::Some(existing) => {
                let mut copy = existing.duplicate();
                copy.name = Option::Some(name);
                copy
            },
            Option::None => Identifier { symbol, name: Option::Some(name), value: Option::None },
        };
        self.identifiers.insert(symbol, updated);
        proof {
            assert(final(self).ids().dom() =~= old(self).ids().dom().insert(symbol));
        }
    }

    /// Whether this scope's name index already holds the normalized name.
    fn contains_norm_name(&self, uname: &Vec<char>) -> (r: bool)
        ensures
            r == self.names().contains_key(uname@),
    {
        let ghost entries = self.normname_symbols@;
        let mut i: usize = 0;
        let n = self.normname_symbols.len();
        while i < n
            invariant
                i <= n,
                n == entries.len(),
                entries == self.normname_symbols@,
                !spec_names_map(entries.take(i as int)).contains_key(uname@),
            decreases n - i,
        {
            let entry = &self.normname_symbols[i];
            if eq_chars(&entry.0, uname) {
                proof {
                    assert(entries.take(i + 1 as int).drop_last() =~= entries.take(i as int));
                    assert(entries.take(i + 1 as int).last() == entries[i as int]);
                    lemma_names_map_prefix_key(entries, i as int + 1, entries.len() as int, uname@);
                    assert(entries.take(entries.len() as int) =~= entries);
                }
                return true;
            }
            proof {
                assert(entries.take(i + 1 as int).drop_last() =~= entries.take(i as int));
                assert(entries.take(i + 1 as int).last() == entries[i as int]);
            }
            i = i + 1;
        }
        proof {
            assert(entries.take(n as int) =~= entries);
        }
        false
    }

    /// Attach or replace the value bound to a symbol in this scope.
    pub fn bind_value(&mut self, symbol: u64, value: Atom)
        ensures
            final(self).parent == old(self).parent,
            final(self).body == old(self).body,
            final(self).next_symbol_id == old(self).next_symbol_id,
            final(self).normname_symbols == old(self).normname_symbols,
            final(self).ids().dom() == old(self).ids().dom().insert(symbol),
            forall|s: u64|
                s != symbol && old(self).ids().contains_key(s) ==> final(self).ids()[s] == old(
                    self,
                ).ids()[s],
            final(self).ids()[symbol]@ == (IdentifierView {
                symbol: if old(self).ids().contains_key(symbol) {
                    old(self).ids()[symbol]@.symbol
                } else {
                    symbol
                },
                name: if old(self).ids().contains_key(symbol) {
                    old(self).ids()[symbol]@.name
                } else {
                    Option::None
                },
                value: Option::Some(value@),
            }),
    {
        let updated: Identifier = match self.identifiers.get(&symbol) {
            Option::Some(existing) => {
                let mut copy = existing.duplicate();
                copy.value = Option::Some(value);
                copy
            },
            Option::None => Identifier { symbol, name: Option::None, value: Option::Some(value) },
        };
        self.identifiers.insert(symbol, updated);
        proof {
            assert(final(self).ids().dom() =~= old(self).ids().dom().insert(symbol));
        }
    }

    /// Bind the resolved form of a raw tagged word to a symbol: the
    /// lower-level form of `bind_value` used to save a stack result.
    pub fn bind_result(&mut self, symbol: u64, result: u64)
        ensures
            final(self).parent == old(self).parent,
            final(self).body == old(self).body,
            final(self).next_symbol_id == old(self).next_symbol_id,
            final(self).normname_symbols == old(self).normname_symbols,
            final(self).ids().dom() == old(self).ids().dom().insert(symbol),
            forall|s: u64|
                s != symbol && old(self).ids().contains_key(s) ==> final(self).ids()[s] == old(
                    self,
                ).ids()[s],
            final(self).ids()[symbol]@.value == Option::Some(
                spec_resolve_atom(&*old(self), result),
            ),
    {
        let atom = resolve_atom(self, result);
        self.bind_value(symbol, atom);
    }

    /// Mint a fresh symbol and bind the value to it.
    pub fn init_value(&mut self, value: Atom) -> (r: u64)
        requires
            old(self).next_symbol_id < u64::MAX,
        ensures
            spec_minted(*old(self), *final(self), r, value@),
            r == spec_create_pointer_symbol(old(self).next_symbol_id),
            final(self).parent == old(self).parent,
            final(self).body == old(self).body,
            final(self).normname_symbols == old(self).normname_symbols,
            final(self).next_symbol_id == old(self).next_symbol_id + 1,
            final(self).ids().dom() == old(self).ids().dom().insert(r),
            forall|s: u64|
                s != r && old(self).ids().contains_key(s) ==> final(self).ids()[s] == old(
                    self,
                ).ids()[s],
            final(self).ids()[r]@ == (IdentifierView {
                symbol: if old(self).ids().contains_key(r) {
                    old(self).ids()[r]@.symbol
                } else {
                    r
                },
                name: if old(self).ids().contains_key(r) {
                    old(self).ids()[r]@.name
                } else {
                    Option::None
                },
                value: Option::Some(value@),
            }),
    {
        let symbol_id = self.define_identifier();
        self.bind_value(symbol_id, value);
        symbol_id
    }

    /// Whether a name's normalized (trimmed, uppercased) form is still
    /// free in this scope. The check is local: it says nothing about
    /// ancestors.
    pub fn is_valid_name(&self, name: String) -> (r: bool)
        ensures
            r == !self.names().contains_key(spec_norm_key(name@)),
    {
        let uname = normalize_name(name.as_str());
        !self.contains_norm_name(&uname)
    }

    /// Find the symbol a name is bound to, walking the parent chain
    /// outward from this scope.
    pub fn lookup_by_name(&self, name: String) -> (r: Option<u64>)
        ensures
            r == self.spec_lookup_name(spec_norm_key(name@)),
    {
        let norm_name = normalize_name(name.as_str());
        self.lookup_norm_name(&norm_name)
    }

    fn lookup_norm_name(&self, norm: &Vec<char>) -> (r: Option<u64>)
        ensures
            r == self.spec_lookup_name(norm@),
        decreases *self,
    {
        let ghost entries = self.normname_symbols@;
        let mut i: usize = 0;
        let n = self.normname_symbols.len();
        while i < n
            invariant
                i <= n,
                n == entries.len(),
                entries == self.normname_symbols@,
                !spec_names_map(entries.take(i as int)).contains_key(norm@),
            decreases n - i,
        {
            let entry = &self.normname_symbols[i];
            if eq_chars(&entry.0, norm) {
                proof {
                    assert(entries.take(i + 1 as int).drop_last() =~= entries.take(i as int));
                    assert(entries.take(i + 1 as int).last() == entries[i as int]);
                    lemma_names_map_prefix_value(
                        entries,
                        i as int + 1,
                        entries.len() as int,
                        norm@,
                    );
                    assert(entries.take(entries.len() as int) =~= entries);
                }
                return Option::Some(entry.1);
            }
            proof {
                assert(entries.take(i + 1 as int).drop_last() =~= entries.take(i as int));
                assert(entries.take(i + 1 as int).last() == entries[i as int]);
            }
            i = i + 1;
        }
        proof {
            assert(entries.take(n as int) =~= entries);
        }
        match &self.parent {
            Option::Some(p) => p.lookup_norm_name(norm),
            Option::None => Option::None,
        }
    }

    /// One resolution walk: follow `Symbol` indirections from `current`,
    /// failing on a revisited symbol (a cycle), a missing or valueless
    /// binding, or exhausted fuel. A keyword-space symbol, or any value
    /// that is not a symbol, is terminal.
    pub open spec fn spec_resolve_chain(
        &self,
        current: u64,
        visited: Seq<u64>,
        fuel: nat,
    ) -> Option<Identifier>
        decreases fuel,
    {
        if fuel == 0 {
            Option::None
        } else {
            match self.spec_lookup(current) {
                Option::None => Option::None,
                Option::Some(ident) => match ident.value {
                    Option::Some(Atom::SymbolValue(next)) => {
                        if spec_is_symbol(next) {
                            Option::Some(ident)
                        } else if visited.contains(next) {
                            Option::None
                        } else {
                            self.spec_resolve_chain(next, visited.push(next), (fuel - 1) as nat)
                        }
                    },
                    Option::Some(_) => Option::Some(ident),
                    Option::None => Option::None,
                },
            }
        }
    }

    /// What `deep_resolve` returns: the terminal identifier of the chain
    /// starting at `symbol`, or nothing on a cycle, a broken link, or a
    /// chain longer than the depth limit.
    pub open spec fn spec_deep_resolve(&self, symbol: u64) -> Option<Identifier> {
        self.spec_resolve_chain(symbol, seq![symbol], RESOLVE_DEPTH_LIMIT as nat)
    }

    /// Resolve a symbol to a terminal identifier by following symbol
    /// indirections. A cycle is detected the instant a visited symbol
    /// repeats, and resolution then fails rather than looping; chains
    /// longer than the depth limit fail too.
    pub fn deep_resolve(&self, symbol: u64) -> (r: Option<&Identifier>)
        ensures
            match r {
                Option::Some(ident) => self.spec_deep_resolve(symbol) == Option::Some(*ident),
                Option::None => self.spec_deep_resolve(symbol) is None,
            },
    {
        let mut current = symbol;
        let mut visited: Vec<u64> = Vec::new();
        visited.push(symbol);
        let mut fuel: u64 = RESOLVE_DEPTH_LIMIT;
        proof {
            assert(visited@ =~= seq![symbol]);
        }
        while fuel > 0
            invariant
                self.spec_resolve_chain(current, visited@, fuel as nat) == self.spec_deep_resolve(
                    symbol,
                ),
            decreases fuel,
        {
            match self.lookup(current) {
                Option::None => {
                    return Option::None;
                },
                Option::Some(ident) => {
                    match &ident.value {
                        Option::Some(Atom::SymbolValue(next)) => {
                            let next = *next;
                            if is_symbol(next) {
                                // A keyword-space symbol evaluates to
                                // itself: terminal.
                                return Option::Some(ident);
                            }
                            if contains_symbol(&visited, next) {
                                // Cyclic symbol reference.
                                return Option::None;
                            }
                            visited.push(next);
                            current = next;
                        },
                        Option::Some(_) => {
                            return Option::Some(ident);
                        },
                        Option::None => {
                            return Option::None;
                        },
                    }
                },
            }
            fuel = fuel - 1;
        }
        Option::None
    }

    /// Find a symbol's identifier, walking the parent chain outward from
    /// this scope.
    pub fn lookup(&self, symbol: u64) -> (r: Option<&Identifier>)
        ensures
            match r {
                Option::Some(ident) => self.spec_lookup(symbol) == Option::Some(*ident),
                Option::None => self.spec_lookup(symbol) is None,
            },
        decreases *self,
    {
        match self.identifiers.get(&symbol) {
            Option::Some(ident) => Option::Some(ident),
            Option::None => match &self.parent {
                Option::Some(p) => p.lookup(symbol),
                Option::None => Option::None,
            },
        }
    }
}

/// Whether the symbol was already seen on this resolution walk.
fn contains_symbol(v: &Vec<u64>, x: u64) -> (r: bool)
    ensures
        r == v@.contains(x),
{
    let mut i: usize = 0;
    while i < v.len()
        invariant
            i <= v.len(),
            forall|j: int| 0 <= j < i ==> v@[j] != x,
        decreases v.len() - i,
    {
        if v[i] == x {
            return true;
        }
        i = i + 1;
    }
    proof {
        assert(!v@.contains(x));
    }
    false
}

/// The scope after a value is materialized under a fresh symbol: the
/// symbol is the pointer-tagged current counter, the counter advanced
/// by one, the value bound under the symbol, and everything else —
/// names, body, parent, and every other binding — untouched.
pub open spec fn spec_minted(env0: Environment, env1: Environment, sym: u64, value: AtomView) -> bool {
    &&& sym == spec_create_pointer_symbol(env0.next_symbol_id)
    &&& env1.next_symbol_id == env0.next_symbol_id + 1
    &&& env1.parent == env0.parent
    &&& env1.body == env0.body
    &&& env1.normname_symbols == env0.normname_symbols
    &&& env1.ids().dom() == env0.ids().dom().insert(sym)
    &&& (forall|s: u64|
        s != sym && env0.ids().contains_key(s) ==> env1.ids()[s] == env0.ids()[s])
    &&& env1.ids()[sym]@.value == Option::Some(value)
}

/// What a tagged word materializes to: a plain number stays numeric, a
/// pointer resolves through the scope (an unresolved pointer falls back
/// to an unresolved symbol), and every other boxed word passes through
/// as a (NaN) numeric bit pattern.
pub open spec fn spec_resolve_atom(env: &Environment, value: u64) -> AtomView {
    if spec_is_number(value) {
        AtomView::Numeric(value)
    } else if spec_is_pointer(value) {
        match env.spec_deep_resolve(value) {
            Option::Some(ident) => match ident.value {
                Option::Some(a) => a@,
                Option::None => AtomView::Symbol(value),
            },
            Option::None => AtomView::Symbol(value),
        }
    } else {
        AtomView::Numeric(value)
    }
}

/// The single chokepoint turning a tagged word into a concrete Atom.
/// Resolution failure is not an error: the unresolved symbol itself is a
/// valid intermediate value, as with forward references.
pub fn resolve_atom(env: &Environment, value: u64) -> (r: Atom)
    ensures
        r@ == spec_resolve_atom(env, value),
{
    if is_number(value) {
        Atom::NumericValue(value)
    } else if is_pointer(value) {
        match env.deep_resolve(value) {
            Option::Some(ident) => match &ident.value {
                Option::Some(a) => a.duplicate(),
                Option::None => Atom::SymbolValue(value),
            },
            Option::None => Atom::SymbolValue(value),
        }
    } else {
        // Some other NaN header: pass it through as a numeric word.
        Atom::NumericValue(value)
    }
}

/// Resolver cycle safety: in a scope where one symbol's value points at
/// a second and the second points back at the first, resolution of the
/// first terminates with no value instead of looping. Self-reference is
/// the case of the two symbols being equal.
pub proof fn lemma_resolver_cycle_safety(env: Environment, a: u64, b: u64, ia: Identifier, ib: Identifier)
    requires
        !spec_is_symbol(b),
        !spec_is_symbol(a),
        env.spec_lookup(a) == Option::Some(ia),
        ia.value == Option::Some(Atom::SymbolValue(b)),
        env.spec_lookup(b) == Option::Some(ib),
        ib.value == Option::Some(Atom::SymbolValue(a)),
    ensures
        env.spec_deep_resolve(a) is None,
{
    let limit = RESOLVE_DEPTH_LIMIT as nat;
    if a == b {
        assert(seq![a].contains(b)) by {
            assert(seq![a][0] == b);
        }
    } else {
        assert(!seq![a].contains(b)) by {
            assert(forall|i: int| 0 <= i < seq![a].len() ==> seq![a][i] == a);
        }
        assert(seq![a].push(b).contains(a)) by {
            assert(seq![a].push(b)[0] == a);
        }
        assert(env.spec_resolve_chain(b, seq![a].push(b), (limit - 1) as nat) is None);
    }
}

/// Resolver chains: a three-link chain whose last symbol holds a
/// non-symbol value resolves to that last identifier.
pub proof fn lemma_resolver_chain(
    env: Environment,
    a: u64,
    b: u64,
    c: u64,
    ia: Identifier,
    ib: Identifier,
    ic: Identifier,
)
    requires
        !spec_is_symbol(a),
        !spec_is_symbol(b),
        !spec_is_symbol(c),
        b != a,
        c != a,
        c != b,
        env.spec_lookup(a) == Option::Some(ia),
        ia.value == Option::Some(Atom::SymbolValue(b)),
        env.spec_lookup(b) == Option::Some(ib),
        ib.value == Option::Some(Atom::SymbolValue(c)),
        env.spec_lookup(c) == Option::Some(ic),
        ic.value matches Option::Some(v) && !(v matches Atom::SymbolValue(_)),
    ensures
        env.spec_deep_resolve(a) == Option::Some(ic),
{
    let limit = RESOLVE_DEPTH_LIMIT as nat;
    let v1 = seq![a];
    let v2 = v1.push(b);
    let v3 = v2.push(c);
    assert(!v1.contains(b)) by {
        assert(forall|i: int| 0 <= i < v1.len() ==> v1[i] == a);
    }
    assert(!v2.contains(c)) by {
        assert(forall|i: int| 0 <= i < v2.len() ==> v2[i] == a || v2[i] == b);
    }
    assert(env.spec_resolve_chain(c, v3, (limit - 2) as nat) == Option::Some(ic));
    assert(env.spec_resolve_chain(b, v2, (limit - 1) as nat) == Option::Some(ic));
}

/// Character-for-character comparison of two names.
fn eq_chars(a: &Vec<char>, b: &Vec<char>) -> (r: bool)
    ensures
        r == (a@ == b@),
{
    if a.len() != b.len() {
        proof {
            assert(a@.len() != b@.len());
        }
        return false;
    }
    let mut i: usize = 0;
    while i < a.len()
        invariant
            i <= a.len(),
            a@.len() == b@.len(),
            forall|j: int| 0 <= j < i ==> a@[j] == b@[j],
        decreases a.len() - i,
    {
        if a[i] != b[i] {
            return false;
        }
        i = i + 1;
    }
    proof {
        assert(a@ =~= b@);
    }
    true
}

/// A key found at an index stays in the map built from any longer
/// prefix.
proof fn lemma_names_map_prefix_key(entries: Seq<(Vec<char>, u64)>, i: int, n: int, key: Seq<char>)
    requires
        0 < i <= n <= entries.len(),
        spec_names_map(entries.take(i)).contains_key(key),
    ensures
        spec_names_map(entries.take(n)).contains_key(key),
    decreases n - i,
{
    if i < n {
        assert(entries.take(i + 1).drop_last() =~= entries.take(i));
        lemma_names_map_prefix_key(entries, i + 1, n, key);
    }
}

/// The value bound to a key is decided by the first entry that holds
/// it: later entries never override it.
proof fn lemma_names_map_prefix_value(
    entries: Seq<(Vec<char>, u64)>,
    i: int,
    n: int,
    key: Seq<char>,
)
    requires
        0 < i <= n <= entries.len(),
        spec_names_map(entries.take(i)).contains_key(key),
    ensures
        spec_names_map(entries.take(n)).contains_key(key),
        spec_names_map(entries.take(n))[key] == spec_names_map(entries.take(i))[key],
    decreases n - i,
{
    if i < n {
        assert(entries.take(i + 1).drop_last() =~= entries.take(i));
        lemma_names_map_prefix_value(entries, i + 1, n, key);
    }
}

} // verus!
