//! One dependency-tracked cell of user input: its raw text, parsed token
//! stream, dependency edges, in-degree counter, and write-once result.
use vstd::prelude::*;

use crate::structs::{Atom, AtomView};

verus! {

pub struct Expression {
    pub cell_id: u64,
    pub symbol: u64,
    pub input: String,
    pub parsed: Vec<Atom>,
    pub used_by: Vec<u64>,
    pub depends_on: Vec<u64>,
    /// Internal dependency counter used during ordering.
    pub unmet_depend_count: i32,
    pub result: Option<u64>,
}

impl Expression {
    pub fn new(cell_id: u64, input: String) -> (r: Expression)
        ensures
            r.cell_id == cell_id,
            r.symbol == 0,
            r.input == input,
            r.parsed@ =~= Seq::<Atom>::empty(),
            r.depends_on@ =~= Seq::<u64>::empty(),
            r.used_by@ =~= Seq::<u64>::empty(),
            r.unmet_depend_count == 0,
            r.result is None,
    {
        Expression {
            cell_id,
            symbol: 0,
            input,
            parsed: Vec::new(),
            depends_on: Vec::new(),
            used_by: Vec::new(),
            unmet_depend_count: 0,
            result: Option::None,
        }
    }

    /// The result slot is write-once: the first recorded value or error is
    /// kept, and later writes are ignored.
    pub fn set_result(&mut self, result: u64)
        ensures
            final(self).result == (if old(self).result is None {
                Option::Some(result)
            } else {
                old(self).result
            }),
            final(self).cell_id == old(self).cell_id,
            final(self).symbol == old(self).symbol,
            final(self).input == old(self).input,
            final(self).parsed == old(self).parsed,
            final(self).used_by == old(self).used_by,
            final(self).depends_on == old(self).depends_on,
            final(self).unmet_depend_count == old(self).unmet_depend_count,
    {
        if self.result.is_none() {
            self.result = Option::Some(result);
        }
    }
}

/// An element-for-element copy of a token stream, equal view for view.
pub fn duplicate_atoms(v: &Vec<Atom>) -> (r: Vec<Atom>)
    ensures
        r.deep_view() == v.deep_view(),
{
    let mut r: Vec<Atom> = Vec::new();
    let mut i: usize = 0;
    while i < v.len()
        invariant
            i <= v.len(),
            r.deep_view() == v.deep_view().take(i as int),
        decreases v.len() - i,
    {
        let ghost pre = r.deep_view();
        let copy = v[i].duplicate();
        assert(copy.deep_view() == v.deep_view()[i as int]);
        r.push(copy);
        proof {
            assert(r.deep_view() =~~= pre.push(v.deep_view()[i as int]));
            assert(pre.push(v.deep_view()[i as int]) =~~= v.deep_view().take(i + 1 as int));
        }
        i = i + 1;
    }
    assert(v.deep_view().take(v@.len() as int) =~~= v.deep_view());
    r
}

} // verus!
