//! Plan bookkeeping of the block executor: which module kind occupies each
//! slot of the fixed slot pool, which slots were (re)built by the last plan,
//! and the double-buffered execution plan. Plan application validates before
//! touching any state and rejects rather than panics.

use vstd::prelude::*;
use crate::caps::MAX_MODULES;
use crate::modules::{kind_of_id, ModuleKindId};
use crate::plan::{
    decode_plan, is_plan_blob, spec_decode_plan, ModuleInit, PlanStep, MAX_BUFFERS, NO_BUFFER,
};

verus! {

/// A step addresses an existing slot and existing buffers.
pub open spec fn step_ok(s: PlanStep) -> bool {
    &&& (s.slot as int) < MAX_MODULES
    &&& forall|i: int|
        0 <= i < 8 ==> #[trigger] s.inputs@[i] == NO_BUFFER || (s.inputs@[i] as int) < MAX_BUFFERS
    &&& forall|i: int| 0 <= i < 8 ==> (#[trigger] s.outputs@[i] as int) < MAX_BUFFERS
}

/// A blob the executor accepts: a well-formed plan of at most one step per
/// slot whose steps and modules all address existing slots and buffers.
pub open spec fn plan_acceptable(b: Seq<u8>) -> bool {
    &&& is_plan_blob(b)
    &&& spec_decode_plan(b).steps.len() <= MAX_MODULES
    &&& forall|j: int|
        0 <= j < spec_decode_plan(b).steps.len() ==> #[trigger] step_ok(spec_decode_plan(b).steps[j])
    &&& forall|j: int|
        0 <= j < spec_decode_plan(b).modules.len() ==> (
        #[trigger] spec_decode_plan(b).modules[j]).slot < MAX_MODULES
}

/// Slot contents and rebuilt flags.
pub type SlotState = (Seq<Option<ModuleKindId>>, Seq<bool>);

/// Bring one slot in line with one module record: a record of an unknown
/// kind changes nothing; a slot already holding the kind keeps its module;
/// otherwise the slot gets a newly built module of the kind.
pub open spec fn sync_one(st: SlotState, init: ModuleInit) -> SlotState {
    match kind_of_id(init.kind) {
        None => st,
        Some(k) => if st.0[init.slot as int] == Some(k) {
            st
        } else {
            (st.0.update(init.slot as int, Some(k)), st.1.update(init.slot as int, true))
        },
    }
}

/// Apply [`sync_one`] for each module record in order.
pub open spec fn sync_all(st: SlotState, mods: Seq<ModuleInit>) -> SlotState
    decreases mods.len(),
{
    if mods.len() == 0 {
        st
    } else {
        sync_one(sync_all(st, mods.drop_last()), mods.last())
    }
}

/// Slot `i` is named by some module record.
pub open spec fn listed(mods: Seq<ModuleInit>, i: int) -> bool {
    exists|j: int| 0 <= j < mods.len() && mods[j].slot == i
}

/// No slot marked rebuilt.
pub open spec fn none_fresh() -> Seq<bool> {
    Seq::new(MAX_MODULES as nat, |i: int| false)
}

/// Slot pool after a plan with module records `mods`: every listed slot is
/// synced in record order, every unlisted slot is emptied.
pub open spec fn apply_slots(old_slots: Seq<Option<ModuleKindId>>, mods: Seq<ModuleInit>) -> SlotState {
    let st = sync_all((old_slots, none_fresh()), mods);
    (
        Seq::new(
            MAX_MODULES as nat,
            |i: int|
                if listed(mods, i) {
                    st.0[i]
                } else {
                    None
                },
        ),
        Seq::new(
            MAX_MODULES as nat,
            |i: int|
                if listed(mods, i) {
                    st.1[i]
                } else {
                    false
                },
        ),
    )
}

/// Plan bookkeeping of the executor.
pub struct Executor {
    slots: Vec<Option<ModuleKindId>>,
    /// Slots whose module the last accepted plan built anew.
    fresh: Vec<bool>,
    /// Double-buffered plans; `active` selects the one that runs.
    plan_a: Vec<PlanStep>,
    plan_b: Vec<PlanStep>,
    active: usize,
    epoch: u32,
}

/// Abstract state of the executor's bookkeeping.
pub struct ExecutorView {
    pub slots: Seq<Option<ModuleKindId>>,
    pub fresh: Seq<bool>,
    pub plan: Seq<PlanStep>,
    pub epoch: u32,
}

impl View for Executor {
    type V = ExecutorView;

    closed spec fn view(&self) -> ExecutorView {
        ExecutorView {
            slots: self.slots@,
            fresh: self.fresh@,
            plan: if self.active == 0 {
                self.plan_a@
            } else {
                self.plan_b@
            },
            epoch: self.epoch,
        }
    }
}

impl Executor {
    /// Well-formedness: one entry per slot, one of the two plans active.
    pub closed spec fn wf(&self) -> bool {
        &&& self.slots@.len() == MAX_MODULES
        &&& self.fresh@.len() == MAX_MODULES
        &&& self.active < 2
    }

    /// A well-formed executor has one pool entry per slot.
    pub proof fn lemma_wf_sizes(&self)
        requires
            self.wf(),
        ensures
            self@.slots.len() == MAX_MODULES,
            self@.fresh.len() == MAX_MODULES,
    {
    }

    /// An empty slot pool running an empty plan at epoch 0.
    pub fn new() -> (r: Executor)
        ensures
            r.wf(),
            r@.slots == Seq::new(MAX_MODULES as nat, |i: int| None::<ModuleKindId>),
            r@.fresh == none_fresh(),
            r@.plan == Seq::<PlanStep>::empty(),
            r@.epoch == 0,
    {
        let mut slots: Vec<Option<ModuleKindId>> = Vec::with_capacity(MAX_MODULES);
        let mut fresh: Vec<bool> = Vec::with_capacity(MAX_MODULES);
        for i in 0..MAX_MODULES
            invariant
                slots@ == Seq::new(i as nat, |k: int| None::<ModuleKindId>),
                fresh@ == Seq::new(i as nat, |k: int| false),
        {
            slots.push(None);
            fresh.push(false);
            assert(slots@ =~= Seq::new(i as nat + 1, |k: int| None::<ModuleKindId>));
            assert(fresh@ =~= Seq::new(i as nat + 1, |k: int| false));
        }
        let r = Executor {
            slots,
            fresh,
            plan_a: Vec::new(),
            plan_b: Vec::new(),
            active: 0,
            epoch: 0,
        };
        assert(r@.fresh =~= none_fresh());
        r
    }

    /// Epoch of the running plan.
    pub fn epoch(&self) -> (r: u32)
        ensures
            r == self@.epoch,
    {
        self.epoch
    }

    /// The kind of module in `slot`, if the slot exists and is occupied.
    pub fn module_at(&self, slot: u32) -> (r: Option<ModuleKindId>)
        requires
            self.wf(),
        ensures
            r == (if (slot as int) < MAX_MODULES {
                self@.slots[slot as int]
            } else {
                None
            }),
    {
        if (slot as usize) < MAX_MODULES {
            self.slots[slot as usize]
        } else {
            None
        }
    }

    /// Whether the last accepted plan built the module in `slot` anew (so the
    /// module's state must start fresh).
    pub fn is_fresh(&self, slot: usize) -> (r: bool)
        requires
            self.wf(),
        ensures
            r == (slot < MAX_MODULES && self@.fresh[slot as int]),
    {
        slot < MAX_MODULES && self.fresh[slot]
    }

    /// The running plan, in execution order.
    pub fn active_plan(&self) -> (r: &Vec<PlanStep>)
        requires
            self.wf(),
        ensures
            r@ == self@.plan,
    {
        if self.active == 0 {
            &self.plan_a
        } else {
            &self.plan_b
        }
    }

    /// Slots of the running plan's steps, in execution order (the order of
    /// meter entries).
    pub fn metered_slots(&self) -> (r: Vec<u16>)
        requires
            self.wf(),
        ensures
            r@ == self@.plan.map_values(|s: PlanStep| s.slot),
    {
        let plan = self.active_plan();
        let mut r: Vec<u16> = Vec::with_capacity(plan.len());
        for i in 0..plan.len()
            invariant
                r@ == plan@.take(i as int).map_values(|s: PlanStep| s.slot),
        {
            r.push(plan[i].slot);
            assert(plan@.take(i as int + 1).map_values(|s: PlanStep| s.slot) =~= plan@.take(
                i as int,
            ).map_values(|s: PlanStep| s.slot).push(plan@[i as int].slot));
        }
        assert(plan@.take(plan@.len() as int) =~= plan@);
        r
    }

    /// Apply a plan blob. Validates every index before touching state;
    /// returns whether the plan was accepted. An accepted plan syncs the slot
    /// pool to its module records, becomes the running plan and sets the
    /// epoch; a rejected one changes nothing.
    #[verifier::loop_isolation(false)]
    pub fn apply_plan(&mut self, bytes: &[u8]) -> (accepted: bool)
        requires
            old(self).wf(),
        ensures
            final(self).wf(),
            accepted == plan_acceptable(bytes@),
            !accepted ==> final(self)@ == old(self)@,
            accepted ==> {
                let p = spec_decode_plan(bytes@);
                &&& (final(self)@.slots, final(self)@.fresh) == apply_slots(old(self)@.slots, p.modules)
                &&& final(self)@.plan == p.steps
                &&& final(self)@.epoch == p.header.epoch
            },
    {
        let view = match decode_plan(bytes) {
            Some(v) => v,
            None => return false,
        };
        let ghost p = spec_decode_plan(bytes@);
        if view.steps.len() > MAX_MODULES {
            return false;
        }
        let ns = view.steps.len();
        for j in 0..ns
            invariant
                ns == view.steps@.len(),
                view@ == p,
                forall|q: int| 0 <= q < j ==> #[trigger] step_ok(p.steps[q]),
        {
            let step = &view.steps[j];
            if step.slot as usize >= MAX_MODULES {
                assert(!step_ok(p.steps[j as int]));
                return false;
            }
            for i in 0..8
                invariant
                    forall|k: int|
                        0 <= k < i ==> #[trigger] step.inputs@[k] == NO_BUFFER || (
                        step.inputs@[k] as int) < MAX_BUFFERS,
            {
                if step.inputs[i] != NO_BUFFER && step.inputs[i] as usize >= MAX_BUFFERS {
                    assert(!step_ok(p.steps[j as int]));
                    return false;
                }
            }
            for i in 0..8
                invariant
                    forall|k: int| 0 <= k < i ==> (#[trigger] step.outputs@[k] as int) < MAX_BUFFERS,
            {
                if step.outputs[i] as usize >= MAX_BUFFERS {
                    assert(!step_ok(p.steps[j as int]));
                    return false;
                }
            }
        }
        let nm = view.modules.len();
        for j in 0..nm
            invariant
                nm == view.modules@.len(),
                view@ == p,
                forall|q: int| 0 <= q < j ==> (#[trigger] p.modules[q]).slot < MAX_MODULES,
        {
            if view.modules[j].slot as usize >= MAX_MODULES {
                assert(!(p.modules[j as int].slot < MAX_MODULES));
                return false;
            }
        }
        assert(plan_acceptable(bytes@));
        // Sync the slot pool: build new/changed modules, drop dead ones.
        let ghost old_slots = self.slots@;
        let mut seen: Vec<bool> = Vec::with_capacity(MAX_MODULES);
        for s in 0..MAX_MODULES
            invariant
                seen@ == Seq::new(s as nat, |k: int| false),
                self.fresh@.len() == MAX_MODULES,
                forall|k: int| 0 <= k < s ==> self.fresh@[k] == false,
                self.slots@ == old_slots,
                old_slots.len() == MAX_MODULES,
        {
            seen.push(false);
            self.fresh.set(s, false);
            assert(seen@ =~= Seq::new(s as nat + 1, |k: int| false));
        }
        assert(self.fresh@ =~= none_fresh());
        assert(p.modules.take(0) =~= Seq::<ModuleInit>::empty());
        for j in 0..nm
            invariant
                nm == view.modules@.len(),
                view@ == p,
                forall|q: int| 0 <= q < nm ==> (#[trigger] p.modules[q]).slot < MAX_MODULES,
                seen@.len() == MAX_MODULES,
                self.slots@.len() == MAX_MODULES,
                self.fresh@.len() == MAX_MODULES,
                (self.slots@, self.fresh@) == sync_all((old_slots, none_fresh()), p.modules.take(j as int)),
                forall|k: int| 0 <= k < MAX_MODULES ==> #[trigger] seen@[k] == listed(p.modules.take(j as int), k),
        {
            let init = view.modules[j];
            let slot = init.slot as usize;
            let ghost t0 = p.modules.take(j as int);
            let ghost t1 = p.modules.take(j as int + 1);
            proof {
                assert(t1.drop_last() =~= t0);
                assert(t1.last() == init);
            }
            seen.set(slot, true);
            match ModuleKindId::from_u16(init.kind) {
                None => {},
                Some(k) => {
                    let same = match self.slots[slot] {
                        Some(cur) => cur == k,
                        None => false,
                    };
                    if !same {
                        self.slots.set(slot, Some(k));
                        self.fresh.set(slot, true);
                    }
                },
            }
            proof {
                assert forall|k: int| 0 <= k < MAX_MODULES implies #[trigger] seen@[k] == listed(t1, k) by {
                    if k == slot {
                        assert(t1[j as int].slot == k);
                    } else {
                        if listed(t1, k) {
                            let q = choose|q: int| 0 <= q < t1.len() && t1[q].slot == k;
                            assert(q < j);
                            assert(t0[q].slot == k);
                        }
                        if listed(t0, k) {
                            let q = choose|q: int| 0 <= q < t0.len() && t0[q].slot == k;
                            assert(t1[q].slot == k);
                        }
                    }
                }
            }
        }
        assert(p.modules.take(nm as int) =~= p.modules);
        let ghost synced = (self.slots@, self.fresh@);
        for s in 0..MAX_MODULES
            invariant
                seen@.len() == MAX_MODULES,
                self.slots@.len() == MAX_MODULES,
                self.fresh@.len() == MAX_MODULES,
                synced.0.len() == MAX_MODULES,
                synced.1.len() == MAX_MODULES,
                forall|k: int| 0 <= k < MAX_MODULES ==> #[trigger] seen@[k] == listed(p.modules, k),
                forall|k: int|
                    0 <= k < s ==> #[trigger] self.slots@[k] == apply_slots(old_slots, p.modules).0[k],
                forall|k: int|
                    0 <= k < s ==> #[trigger] self.fresh@[k] == apply_slots(old_slots, p.modules).1[k],
                forall|k: int| s <= k < MAX_MODULES ==> #[trigger] self.slots@[k] == synced.0[k],
                forall|k: int| s <= k < MAX_MODULES ==> #[trigger] self.fresh@[k] == synced.1[k],
                synced == sync_all((old_slots, none_fresh()), p.modules),
        {
            if !seen[s] {
                self.slots.set(s, None);
                self.fresh.set(s, false);
            }
        }
        assert(self.slots@ =~= apply_slots(old_slots, p.modules).0);
        assert(self.fresh@ =~= apply_slots(old_slots, p.modules).1);
        // Swap in the new plan.
        if self.active == 0 {
            self.plan_b = view.steps;
            self.active = 1;
        } else {
            self.plan_a = view.steps;
            self.active = 0;
        }
        self.epoch = view.header.epoch;
        true
    }
}

/// Syncing keeps the pool's size.
pub proof fn lemma_sync_len(st: SlotState, mods: Seq<ModuleInit>)
    requires
        st.0.len() == MAX_MODULES,
        st.1.len() == MAX_MODULES,
        forall|q: int| 0 <= q < mods.len() ==> (#[trigger] mods[q]).slot < MAX_MODULES,
    ensures
        sync_all(st, mods).0.len() == MAX_MODULES,
        sync_all(st, mods).1.len() == MAX_MODULES,
    decreases mods.len(),
{
    if mods.len() > 0 {
        lemma_sync_len(st, mods.drop_last());
    }
}

/// A slot untouched by every record keeps its contents and flag.
proof fn lemma_sync_frame(st: SlotState, mods: Seq<ModuleInit>, i: int)
    requires
        0 <= i < MAX_MODULES,
        st.0.len() == MAX_MODULES,
        st.1.len() == MAX_MODULES,
        forall|q: int| 0 <= q < mods.len() ==> (#[trigger] mods[q]).slot < MAX_MODULES,
        forall|q: int| 0 <= q < mods.len() ==> (#[trigger] mods[q]).slot != i,
    ensures
        sync_all(st, mods).0[i] == st.0[i],
        sync_all(st, mods).1[i] == st.1[i],
    decreases mods.len(),
{
    if mods.len() > 0 {
        let d = mods.drop_last();
        assert forall|q: int| 0 <= q < d.len() implies (#[trigger] d[q]).slot != i by {
            assert(d[q] == mods[q]);
        }
        lemma_sync_frame(st, d, i);
        lemma_sync_flags_len(st, d);
        assert(mods.last() == mods[mods.len() - 1]);
    }
}

/// A slot whose flag stays clear holds what it held; a flagged slot holds a
/// module.
proof fn lemma_sync_flags(st: SlotState, mods: Seq<ModuleInit>, i: int)
    requires
        st.0.len() == MAX_MODULES,
        st.1.len() == MAX_MODULES,
        forall|q: int| 0 <= q < mods.len() ==> (#[trigger] mods[q]).slot < MAX_MODULES,
        0 <= i < st.0.len(),
        st.0.len() == st.1.len(),
        !st.1[i],
    ensures
        !sync_all(st, mods).1[i] ==> sync_all(st, mods).0[i] == st.0[i],
        sync_all(st, mods).1[i] ==> sync_all(st, mods).0[i] is Some,
        sync_all(st, mods).0.len() == st.0.len(),
        sync_all(st, mods).1.len() == st.1.len(),
    decreases mods.len(),
{
    if mods.len() > 0 {
        lemma_sync_flags(st, mods.drop_last(), i);
    }
}

/// A slot already holding kind `k`, named only by records of kind `k` or of
/// unknown kinds, keeps its module.
proof fn lemma_sync_keeps(st: SlotState, mods: Seq<ModuleInit>, i: int, k: ModuleKindId)
    requires
        st.0.len() == MAX_MODULES,
        st.1.len() == MAX_MODULES,
        forall|q: int| 0 <= q < mods.len() ==> (#[trigger] mods[q]).slot < MAX_MODULES,
        0 <= i < st.0.len(),
        st.0.len() == st.1.len(),
        st.0[i] == Some(k),
        forall|q: int|
            0 <= q < mods.len() && (#[trigger] mods[q]).slot == i ==> kind_of_id(mods[q].kind)
                is None || kind_of_id(mods[q].kind) == Some(k),
    ensures
        sync_all(st, mods).0[i] == Some(k),
        sync_all(st, mods).1[i] == st.1[i],
    decreases mods.len(),
{
    if mods.len() > 0 {
        let d = mods.drop_last();
        assert forall|q: int|
            0 <= q < d.len() && (#[trigger] d[q]).slot == i implies kind_of_id(d[q].kind) is None
                || kind_of_id(d[q].kind) == Some(k) by {
            assert(d[q] == mods[q]);
        }
        lemma_sync_keeps(st, d, i, k);
        lemma_sync_flags_len(st, d);
        assert(mods.last() == mods[mods.len() - 1]);
    }
}

/// Syncing keeps the sizes of both sequences.
proof fn lemma_sync_flags_len(st: SlotState, mods: Seq<ModuleInit>)
    requires
        st.0.len() == MAX_MODULES,
        st.1.len() == MAX_MODULES,
        forall|q: int| 0 <= q < mods.len() ==> (#[trigger] mods[q]).slot < MAX_MODULES,
    ensures
        sync_all(st, mods).0.len() == st.0.len(),
        sync_all(st, mods).1.len() == st.1.len(),
    decreases mods.len(),
{
    if mods.len() > 0 {
        lemma_sync_flags_len(st, mods.drop_last());
    }
}

/// The last record of a known kind naming a slot decides the slot's kind.
proof fn lemma_sync_last_wins(st: SlotState, mods: Seq<ModuleInit>, i: int, j: int)
    requires
        st.0.len() == MAX_MODULES,
        st.1.len() == MAX_MODULES,
        forall|q: int| 0 <= q < mods.len() ==> (#[trigger] mods[q]).slot < MAX_MODULES,
        0 <= i < st.0.len(),
        st.0.len() == st.1.len(),
        0 <= j < mods.len(),
        mods[j].slot == i,
        kind_of_id(mods[j].kind) is Some,
        forall|q: int|
            j < q < mods.len() && (#[trigger] mods[q]).slot == i ==> kind_of_id(mods[q].kind) is None,
    ensures
        sync_all(st, mods).0[i] == kind_of_id(mods[j].kind),
    decreases mods.len(),
{
    let d = mods.drop_last();
    lemma_sync_flags_len(st, d);
    if j == mods.len() - 1 {
    } else {
        assert forall|q: int|
            j < q < d.len() && (#[trigger] d[q]).slot == i implies kind_of_id(d[q].kind) is None by {
            assert(d[q] == mods[q]);
        }
        assert(d[j] == mods[j]);
        lemma_sync_last_wins(st, d, i, j);
        let last = mods[mods.len() - 1];
        assert(mods.last() == last);
        if last.slot as int == i {
            assert(kind_of_id(last.kind) is None);
        }
    }
}

/// A plan drops every module of a slot it does not name.
pub proof fn lemma_unlisted_slot_dropped(old_slots: Seq<Option<ModuleKindId>>, mods: Seq<ModuleInit>, i: int)
    requires
        0 <= i < MAX_MODULES,
        !listed(mods, i),
    ensures
        apply_slots(old_slots, mods).0[i] is None,
        !apply_slots(old_slots, mods).1[i],
{
}

/// Live plan swap keeps module state: a slot that already holds kind `k`,
/// and that the new plan names only with kind `k` (or with unknown kinds),
/// keeps its module and is not rebuilt.
pub proof fn lemma_same_kind_keeps_module(
    old_slots: Seq<Option<ModuleKindId>>,
    mods: Seq<ModuleInit>,
    i: int,
    k: ModuleKindId,
)
    requires
        forall|q: int| 0 <= q < mods.len() ==> (#[trigger] mods[q]).slot < MAX_MODULES,
        old_slots.len() == MAX_MODULES,
        0 <= i < MAX_MODULES,
        old_slots[i] == Some(k),
        listed(mods, i),
        forall|q: int|
            0 <= q < mods.len() && (#[trigger] mods[q]).slot == i ==> kind_of_id(mods[q].kind)
                is None || kind_of_id(mods[q].kind) == Some(k),
    ensures
        apply_slots(old_slots, mods).0[i] == Some(k),
        !apply_slots(old_slots, mods).1[i],
{
    lemma_sync_keeps((old_slots, none_fresh()), mods, i, k);
}

/// A slot the plan names is rebuilt only to hold a module, and a slot not
/// rebuilt keeps exactly the module it held before the plan (if any).
pub proof fn lemma_unrebuilt_slot_unchanged(
    old_slots: Seq<Option<ModuleKindId>>,
    mods: Seq<ModuleInit>,
    i: int,
)
    requires
        forall|q: int| 0 <= q < mods.len() ==> (#[trigger] mods[q]).slot < MAX_MODULES,
        old_slots.len() == MAX_MODULES,
        0 <= i < MAX_MODULES,
        listed(mods, i),
    ensures
        apply_slots(old_slots, mods).1[i] ==> apply_slots(old_slots, mods).0[i] is Some,
        !apply_slots(old_slots, mods).1[i] ==> apply_slots(old_slots, mods).0[i] == old_slots[i],
{
    lemma_sync_flags((old_slots, none_fresh()), mods, i);
}

/// The last record of a known kind that names a slot decides which kind of
/// module the slot holds after the plan.
pub proof fn lemma_last_record_decides_slot(
    old_slots: Seq<Option<ModuleKindId>>,
    mods: Seq<ModuleInit>,
    j: int,
)
    requires
        forall|q: int| 0 <= q < mods.len() ==> (#[trigger] mods[q]).slot < MAX_MODULES,
        old_slots.len() == MAX_MODULES,
        0 <= j < mods.len(),
        (mods[j].slot as int) < MAX_MODULES,
        kind_of_id(mods[j].kind) is Some,
        forall|q: int|
            j < q < mods.len() && (#[trigger] mods[q]).slot == mods[j].slot ==> kind_of_id(
                mods[q].kind,
            ) is None,
    ensures
        apply_slots(old_slots, mods).0[mods[j].slot as int] == kind_of_id(mods[j].kind),
{
    lemma_sync_last_wins((old_slots, none_fresh()), mods, mods[j].slot as int, j);
    assert(listed(mods, mods[j].slot as int));
}

/// A slot named only by records of one known kind ends up holding that kind.
proof fn lemma_sync_uniform(st: SlotState, mods: Seq<ModuleInit>, i: int, k: ModuleKindId)
    requires
        st.0.len() == MAX_MODULES,
        st.1.len() == MAX_MODULES,
        forall|q: int| 0 <= q < mods.len() ==> (#[trigger] mods[q]).slot < MAX_MODULES,
        0 <= i < st.0.len(),
        st.0.len() == st.1.len(),
        listed(mods, i),
        forall|q: int|
            0 <= q < mods.len() && (#[trigger] mods[q]).slot == i ==> kind_of_id(mods[q].kind)
                == Some(k),
    ensures
        sync_all(st, mods).0[i] == Some(k),
    decreases mods.len(),
{
    let d = mods.drop_last();
    lemma_sync_flags_len(st, d);
    let last = mods[mods.len() - 1];
    assert(mods.last() == last);
    if last.slot as int == i {
    } else {
        let j = choose|j: int| 0 <= j < mods.len() && mods[j].slot == i;
        assert(j < d.len());
        assert(d[j] == mods[j]);
        assert forall|q: int|
            0 <= q < d.len() && (#[trigger] d[q]).slot == i implies kind_of_id(d[q].kind) == Some(
                k,
            ) by {
            assert(d[q] == mods[q]);
        }
        lemma_sync_uniform(st, d, i, k);
    }
}

/// Applying the same module records twice rebuilds nothing the second time
/// when the records name each slot with a single known kind.
pub proof fn lemma_reapply_rebuilds_nothing(old_slots: Seq<Option<ModuleKindId>>, mods: Seq<ModuleInit>)
    requires
        old_slots.len() == MAX_MODULES,
        forall|q: int| 0 <= q < mods.len() ==> (#[trigger] mods[q]).slot < MAX_MODULES,
        forall|q: int| 0 <= q < mods.len() ==> kind_of_id((#[trigger] mods[q]).kind) is Some,
        forall|q1: int, q2: int|
            0 <= q1 < mods.len() && 0 <= q2 < mods.len() && (#[trigger] mods[q1]).slot == (
            #[trigger] mods[q2]).slot ==> mods[q1].kind == mods[q2].kind,
    ensures
        apply_slots(apply_slots(old_slots, mods).0, mods).0 == apply_slots(old_slots, mods).0,
        apply_slots(apply_slots(old_slots, mods).0, mods).1 == none_fresh(),
{
    let first = apply_slots(old_slots, mods).0;
    let second = apply_slots(first, mods);
    assert forall|s: int|
        #![trigger second.0[s]]
        #![trigger second.1[s]]
        0 <= s < MAX_MODULES implies second.0[s] == first[s] && !second.1[s] by {
        if listed(mods, s) {
            let j = choose|j: int| 0 <= j < mods.len() && mods[j].slot == s;
            let k = kind_of_id(mods[j].kind).unwrap();
            assert forall|q: int|
                0 <= q < mods.len() && (#[trigger] mods[q]).slot == s implies kind_of_id(
                    mods[q].kind,
                ) == Some(k) by {
                assert(mods[q].kind == mods[j].kind);
            }
            lemma_sync_uniform((old_slots, none_fresh()), mods, s, k);
            assert(first[s] == Some(k));
            lemma_same_kind_keeps_module(first, mods, s, k);
        }
    }
    assert(second.0 =~= first);
    assert(second.1 =~= none_fresh());
}

} // verus!
