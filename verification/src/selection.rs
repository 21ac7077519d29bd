//! The set of selected modules on the rack. A plain click selects one
//! module; Shift/Ctrl-click toggles membership; copy, delete and save act on
//! the whole set.

use vstd::prelude::*;
use std::collections::HashSet;
use vstd::std_specs::iter::IteratorSpec;

verus! {

broadcast use vstd::std_specs::hash::group_hash_axioms;

/// The selection after a click on module `id`: `additive` (Shift/Ctrl)
/// toggles its membership; a plain click on an unselected module selects
/// just that module, and a plain click on a selected one leaves the
/// selection intact (so a group stays selected).
pub open spec fn spec_select(sel: Set<u64>, id: u64, additive: bool) -> Set<u64> {
    if additive {
        if sel.contains(id) {
            sel.remove(id)
        } else {
            sel.insert(id)
        }
    } else if sel.contains(id) {
        sel
    } else {
        Set::empty().insert(id)
    }
}

pub struct Selection {
    ids: HashSet<u64>,
}

impl View for Selection {
    type V = Set<u64>;

    closed spec fn view(&self) -> Set<u64> {
        self.ids@
    }
}

impl Selection {
    pub fn new() -> (r: Selection)
        ensures
            r@ == Set::<u64>::empty(),
    {
        Selection { ids: HashSet::new() }
    }

    /// Number of selected modules.
    pub fn count(&self) -> (r: usize)
        ensures
            r == self@.len(),
    {
        self.ids.len()
    }

    pub fn contains(&self, id: u64) -> (r: bool)
        ensures
            r == self@.contains(id),
    {
        self.ids.contains(&id)
    }

    pub fn clear(&mut self)
        ensures
            final(self)@ == Set::<u64>::empty(),
    {
        self.ids.clear();
    }

    /// Set or toggle the selection for a click on module `id`.
    pub fn select(&mut self, id: u64, additive: bool)
        ensures
            final(self)@ == spec_select(old(self)@, id, additive),
    {
        if additive {
            if !self.ids.remove(&id) {
                self.ids.insert(id);
            }
        } else if !self.ids.contains(&id) {
            self.ids.clear();
            self.ids.insert(id);
        }
    }

    /// Replace the selection with the given modules (a pasted copy).
    pub fn replace(&mut self, ids: &[u64])
        ensures
            final(self)@ == ids@.to_set(),
    {
        self.ids.clear();
        for i in 0..ids.len()
            invariant
                self.ids@ == ids@.take(i as int).to_set(),
        {
            proof {
                assert(ids@.take(i + 1) =~= ids@.take(i as int).push(ids@[i as int]));
                ids@.take(i as int).lemma_push_to_set_commute(ids@[i as int]);
            }
            self.ids.insert(ids[i]);
        }
        proof {
            assert(ids@.take(ids.len() as int) =~= ids@);
        }
    }

    /// Whether `members` (a group's member list) is exactly the selection:
    /// as many members as selected modules, each of them selected.
    pub fn is_exactly(&self, members: &[u64]) -> (r: bool)
        ensures
            r == (members.len() == self@.len() && forall|i: int|
                0 <= i < members.len() ==> self@.contains(#[trigger] members@[i])),
    {
        if members.len() != self.ids.len() {
            return false;
        }
        for i in 0..members.len()
            invariant
                forall|j: int| 0 <= j < i ==> self@.contains(#[trigger] members@[j]),
        {
            if !self.ids.contains(&members[i]) {
                return false;
            }
        }
        true
    }

    /// The selected modules, each once, in no particular order.
    pub fn ids(&self) -> (r: Vec<u64>)
        ensures
            r@.to_set() == self@,
            r@.no_duplicates(),
    {
        let ghost keys = vstd::std_specs::hash::spec_hash_keys_iter(&self.ids).remaining().unref();
        let mut r: Vec<u64> = Vec::new();
        for x in it: self.ids.iter()
            invariant
                r.len() == it.index(),
                it.seq().unref() == keys,
                forall|k: int| 0 <= k < r.len() ==> r@[k] == *it.seq()[k],
        {
            r.push(*x);
        }
        assert(r@ =~= keys);
        r
    }
}

/// Shift/Ctrl-clicking the same module twice leaves the selection as it
/// was; a plain click on an unselected module selects exactly that module.
pub proof fn lemma_toggle_twice_restores(sel: Set<u64>, id: u64)
    ensures
        spec_select(spec_select(sel, id, true), id, true) == sel,
        !sel.contains(id) ==> spec_select(sel, id, false) == set![id],
{
    if sel.contains(id) {
        assert(sel.remove(id).insert(id) =~= sel);
    } else {
        assert(sel.insert(id).remove(id) =~= sel);
        assert(Set::<u64>::empty().insert(id) =~= set![id]);
    }
}

} // verus!
