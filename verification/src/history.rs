//! Undo/redo history of whole-patch snapshots. Structural edits record the
//! patch as it was before the edit; undo and redo trade the current patch
//! with the top of the other stack.

use vstd::prelude::*;

verus! {

/// Most snapshots the undo stack keeps; the oldest is dropped beyond it.
pub const HISTORY_CAP: usize = 64;

/// The two stacks, top last.
pub struct HistoryView<T> {
    pub undo: Seq<T>,
    pub redo: Seq<T>,
}

/// Recording a snapshot: the oldest is dropped when the undo stack is full,
/// the snapshot goes on top, and the redo stack is cleared (a new edit
/// forks the history).
pub open spec fn spec_record<T>(h: HistoryView<T>, snapshot: T) -> HistoryView<T> {
    let kept = if h.undo.len() >= HISTORY_CAP {
        h.undo.drop_first()
    } else {
        h.undo
    };
    HistoryView { undo: kept.push(snapshot), redo: Seq::empty() }
}

/// Undo with `current` as the patch: the top undo snapshot becomes the
/// patch and `current` goes on the redo stack. Nothing changes when there
/// is nothing to undo.
pub open spec fn spec_undo<T>(h: HistoryView<T>, current: T) -> (HistoryView<T>, T) {
    if h.undo.len() == 0 {
        (h, current)
    } else {
        (HistoryView { undo: h.undo.drop_last(), redo: h.redo.push(current) }, h.undo.last())
    }
}

/// Redo with `current` as the patch: the mirror image of undo.
pub open spec fn spec_redo<T>(h: HistoryView<T>, current: T) -> (HistoryView<T>, T) {
    if h.redo.len() == 0 {
        (h, current)
    } else {
        (HistoryView { undo: h.undo.push(current), redo: h.redo.drop_last() }, h.redo.last())
    }
}

pub struct History<T> {
    undo: Vec<T>,
    redo: Vec<T>,
}

impl<T> View for History<T> {
    type V = HistoryView<T>;

    closed spec fn view(&self) -> HistoryView<T> {
        HistoryView { undo: self.undo@, redo: self.redo@ }
    }
}

impl<T> History<T> {
    pub fn new() -> (r: History<T>)
        ensures
            r@.undo == Seq::<T>::empty(),
            r@.redo == Seq::<T>::empty(),
    {
        History { undo: Vec::new(), redo: Vec::new() }
    }

    /// Snapshot the patch before a structural edit so it can be undone.
    pub fn record(&mut self, snapshot: T)
        ensures
            final(self)@ == spec_record(old(self)@, snapshot),
    {
        if self.undo.len() >= HISTORY_CAP {
            self.undo.remove(0);
        }
        self.undo.push(snapshot);
        self.redo.clear();
    }

    /// Drop the snapshot just recorded, for an edit that changed nothing.
    pub fn discard_last(&mut self)
        ensures
            final(self)@.undo == (if old(self)@.undo.len() == 0 {
                old(self)@.undo
            } else {
                old(self)@.undo.drop_last()
            }),
            final(self)@.redo == old(self)@.redo,
    {
        self.undo.pop();
    }

    pub fn can_undo(&self) -> (r: bool)
        ensures
            r == (self@.undo.len() > 0),
    {
        self.undo.len() > 0
    }

    pub fn can_redo(&self) -> (r: bool)
        ensures
            r == (self@.redo.len() > 0),
    {
        self.redo.len() > 0
    }

    /// Restore the previous snapshot into `current`. Returns true if
    /// anything changed.
    pub fn undo(&mut self, current: &mut T) -> (r: bool)
        ensures
            r == (old(self)@.undo.len() > 0),
            (final(self)@, *final(current)) == spec_undo(old(self)@, *old(current)),
    {
        match self.undo.pop() {
            Some(prev) => {
                let mut prev = prev;
                std::mem::swap(current, &mut prev);
                self.redo.push(prev);
                true
            },
            None => false,
        }
    }

    /// Re-apply the last undone snapshot into `current`. Returns true if
    /// anything changed.
    pub fn redo(&mut self, current: &mut T) -> (r: bool)
        ensures
            r == (old(self)@.redo.len() > 0),
            (final(self)@, *final(current)) == spec_redo(old(self)@, *old(current)),
    {
        match self.redo.pop() {
            Some(next) => {
                let mut next = next;
                std::mem::swap(current, &mut next);
                self.undo.push(next);
                true
            },
            None => false,
        }
    }
}

/// The undo stack never holds more than `HISTORY_CAP` snapshots.
pub proof fn lemma_record_bounded<T>(h: HistoryView<T>, snapshot: T)
    requires
        h.undo.len() <= HISTORY_CAP,
    ensures
        spec_record(h, snapshot).undo.len() <= HISTORY_CAP,
        spec_record(h, snapshot).redo.len() == 0,
{
}

/// Undo right after recording gives back the recorded snapshot, and the
/// patch it replaced becomes the only thing to redo.
pub proof fn lemma_undo_restores_recorded<T>(h: HistoryView<T>, snapshot: T, current: T)
    ensures
        spec_undo(spec_record(h, snapshot), current).1 == snapshot,
        spec_undo(spec_record(h, snapshot), current).0.redo == seq![current],
{
    let r = spec_record(h, snapshot);
    assert(r.undo.last() == snapshot);
    assert(r.redo.push(current) =~= seq![current]);
}

/// Redo undoes an undo: both stacks and the patch come back as they were.
pub proof fn lemma_redo_after_undo<T>(h: HistoryView<T>, current: T)
    requires
        h.undo.len() > 0,
    ensures
        spec_redo(spec_undo(h, current).0, spec_undo(h, current).1) == (h, current),
{
    let (u, p) = spec_undo(h, current);
    assert(u.undo.push(p) =~= h.undo);
    assert(u.redo.drop_last() =~= h.redo);
}

/// Undo undoes a redo: both stacks and the patch come back as they were.
pub proof fn lemma_undo_after_redo<T>(h: HistoryView<T>, current: T)
    requires
        h.redo.len() > 0,
    ensures
        spec_undo(spec_redo(h, current).0, spec_redo(h, current).1) == (h, current),
{
    let (u, p) = spec_redo(h, current);
    assert(u.redo.push(p) =~= h.redo);
    assert(u.undo.drop_last() =~= h.undo);
}

} // verus!
