//! Execution plan wire format. The UI thread flattens the patch graph into a
//! plan blob; the audio thread decodes it and swaps it in. Layout, all
//! little-endian:
//!
//! ```text
//! PlanHeader (4 x u32) | ModuleInit (2 x u16) x n_modules | PlanStep (18 x u16) x n_steps
//! ```
//!
//! Steps are in execution order (reverse postorder of the producer->consumer
//! DAG, so feedback back-edges naturally read the previous block).

use vstd::prelude::*;
use crate::wire::{
    hi16, high_half, le32_words, lemma_block_index, lemma_le32_words_concat,
    lemma_le32_words_read, lemma_pack16, lo16, low_half, pack16, pack_halves, read_u32, u32_at,
    words_to_bytes,
};

verus! {

/// First u32 of a plan blob; distinguishes it from a control-message batch
/// (whose first u32 is a message tag below 100).
pub const PLAN_TAG: u32 = 100;

/// Max input/output ports per module.
pub const MAX_PORTS_IN: usize = 8;
pub const MAX_PORTS_OUT: usize = 8;

/// Port-buffer pool size. Indices `0..N_RESERVED_BUFFERS` are reserved trash
/// buffers for unconnected output ports (one per port position).
pub const MAX_BUFFERS: usize = 1024;
pub const TRASH_BUFFER: u16 = 0;
pub const N_RESERVED_BUFFERS: u16 = 8;
/// "Not connected" marker for input port refs.
pub const NO_BUFFER: u16 = 65535;

/// Bytes of the plan header.
pub const PLAN_HEADER_SIZE: usize = 16;
/// Bytes of one [`ModuleInit`] record.
pub const MODULE_INIT_SIZE: usize = 4;
/// Bytes of one [`PlanStep`] record.
pub const PLAN_STEP_SIZE: usize = 36;

#[derive(Clone, Copy, Debug, PartialEq, Eq, Structural)]
pub struct PlanHeader {
    pub tag: u32,
    pub epoch: u32,
    pub n_modules: u32,
    pub n_steps: u32,
}

/// One live module: the engine constructs/keeps slot contents to match.
#[derive(Clone, Copy, Debug, PartialEq, Eq, Structural)]
pub struct ModuleInit {
    pub slot: u16,
    pub kind: u16,
}

impl Default for ModuleInit {
    fn default() -> (r: ModuleInit)
        ensures
            r == (ModuleInit { slot: 0, kind: 0 }),
    {
        ModuleInit { slot: 0, kind: 0 }
    }
}

/// One execution step. `inputs[i]` is a buffer index or [`NO_BUFFER`];
/// `outputs[i]` is a buffer index (`TRASH_BUFFER + i` for unconnected ports).
#[derive(Clone, Copy, Debug)]
pub struct PlanStep {
    pub slot: u16,
    pub kind: u16,
    pub inputs: [u16; 8],
    pub outputs: [u16; 8],
}

/// The step every unset field of a built step starts from: slot and kind 0,
/// no input connected, each output on its own trash buffer.
pub open spec fn default_step_ok(s: PlanStep) -> bool {
    &&& s.slot == 0
    &&& s.kind == 0
    &&& forall|i: int| 0 <= i < 8 ==> s.inputs@[i] == NO_BUFFER
    &&& forall|i: int| 0 <= i < 8 ==> s.outputs@[i] == TRASH_BUFFER + i
}

impl Default for PlanStep {
    fn default() -> (r: PlanStep)
        ensures
            default_step_ok(r),
    {
        PlanStep {
            slot: 0,
            kind: 0,
            inputs: [NO_BUFFER; 8],
            outputs: [0, 1, 2, 3, 4, 5, 6, 7],
        }
    }
}

/// Wire words of the plan header.
pub open spec fn header_words(h: PlanHeader) -> Seq<u32> {
    seq![h.tag, h.epoch, h.n_modules, h.n_steps]
}

/// Wire words of the module list: one word (slot, kind) per module.
pub open spec fn modules_words(m: Seq<ModuleInit>) -> Seq<u32> {
    Seq::new(m.len(), |i: int| pack16(m[i].slot, m[i].kind))
}

/// Wire words of one step: (slot, kind), then the inputs and the outputs two
/// per word.
pub open spec fn step_words(s: PlanStep) -> Seq<u32> {
    seq![
        pack16(s.slot, s.kind),
        pack16(s.inputs@[0], s.inputs@[1]),
        pack16(s.inputs@[2], s.inputs@[3]),
        pack16(s.inputs@[4], s.inputs@[5]),
        pack16(s.inputs@[6], s.inputs@[7]),
        pack16(s.outputs@[0], s.outputs@[1]),
        pack16(s.outputs@[2], s.outputs@[3]),
        pack16(s.outputs@[4], s.outputs@[5]),
        pack16(s.outputs@[6], s.outputs@[7]),
    ]
}

/// Wire words of the step list.
pub open spec fn steps_words(s: Seq<PlanStep>) -> Seq<u32> {
    Seq::new(9 * s.len(), |q: int| step_words(s[q / 9])[q % 9])
}

/// The header a plan of `n_modules` modules and `n_steps` steps is sent with.
pub open spec fn plan_header(epoch: u32, n_modules: nat, n_steps: nat) -> PlanHeader {
    PlanHeader { tag: PLAN_TAG, epoch, n_modules: n_modules as u32, n_steps: n_steps as u32 }
}

/// Bytes of an encoded plan.
pub open spec fn spec_encode_plan(epoch: u32, m: Seq<ModuleInit>, s: Seq<PlanStep>) -> Seq<u8> {
    le32_words(
        header_words(plan_header(epoch, m.len(), s.len())) + modules_words(m) + steps_words(s),
    )
}

/// The module record at byte offset `p`.
pub open spec fn module_at(b: Seq<u8>, p: int) -> ModuleInit {
    ModuleInit { slot: lo16(u32_at(b, p)), kind: hi16(u32_at(b, p)) }
}

/// The step record at byte offset `p`.
pub open spec fn step_at(b: Seq<u8>, p: int) -> PlanStep {
    PlanStep {
        slot: lo16(u32_at(b, p)),
        kind: hi16(u32_at(b, p)),
        inputs: [
            lo16(u32_at(b, p + 4)),
            hi16(u32_at(b, p + 4)),
            lo16(u32_at(b, p + 8)),
            hi16(u32_at(b, p + 8)),
            lo16(u32_at(b, p + 12)),
            hi16(u32_at(b, p + 12)),
            lo16(u32_at(b, p + 16)),
            hi16(u32_at(b, p + 16)),
        ],
        outputs: [
            lo16(u32_at(b, p + 20)),
            hi16(u32_at(b, p + 20)),
            lo16(u32_at(b, p + 24)),
            hi16(u32_at(b, p + 24)),
            lo16(u32_at(b, p + 28)),
            hi16(u32_at(b, p + 28)),
            lo16(u32_at(b, p + 32)),
            hi16(u32_at(b, p + 32)),
        ],
    }
}

/// The header at the start of a blob of at least 16 bytes.
pub open spec fn header_at(b: Seq<u8>) -> PlanHeader {
    PlanHeader {
        tag: u32_at(b, 0),
        epoch: u32_at(b, 4),
        n_modules: u32_at(b, 8),
        n_steps: u32_at(b, 12),
    }
}

/// Bytes a blob with this header must hold.
pub open spec fn plan_len(h: PlanHeader) -> int {
    16 + 4 * h.n_modules + 36 * h.n_steps
}

/// When a blob is a plan: long enough for its header, tagged as a plan, and
/// long enough for every record the header announces. Trailing bytes beyond
/// the announced records are ignored.
pub open spec fn is_plan_blob(b: Seq<u8>) -> bool {
    &&& b.len() >= 16
    &&& header_at(b).tag == PLAN_TAG
    &&& b.len() >= plan_len(header_at(b))
}

/// The decoded contents of a plan blob.
pub struct SpecPlan {
    pub header: PlanHeader,
    pub modules: Seq<ModuleInit>,
    pub steps: Seq<PlanStep>,
}

/// What a plan blob decodes to (meaningful when [`is_plan_blob`] holds).
pub open spec fn spec_decode_plan(b: Seq<u8>) -> SpecPlan {
    let h = header_at(b);
    SpecPlan {
        header: h,
        modules: Seq::new(h.n_modules as nat, |i: int| module_at(b, 16 + 4 * i)),
        steps: Seq::new(h.n_steps as nat, |j: int| step_at(b, 16 + 4 * h.n_modules + 36 * j)),
    }
}

/// Decoded plan blob.
pub struct PlanView {
    pub header: PlanHeader,
    pub modules: Vec<ModuleInit>,
    pub steps: Vec<PlanStep>,
}

impl View for PlanView {
    type V = SpecPlan;

    open spec fn view(&self) -> SpecPlan {
        SpecPlan { header: self.header, modules: self.modules@, steps: self.steps@ }
    }
}

/// Serialize a plan to one blob.
pub fn encode_plan(epoch: u32, modules: &[ModuleInit], steps: &[PlanStep]) -> (r: Vec<u8>)
    requires
        modules@.len() <= u32::MAX,
        steps@.len() <= u32::MAX,
        16 + 4 * modules@.len() + 36 * steps@.len() <= usize::MAX,
    ensures
        r@ == spec_encode_plan(epoch, modules@, steps@),
{
    let nm = modules.len();
    let ns = steps.len();
    let mut words: Vec<u32> = Vec::with_capacity(4 + nm + 9 * ns);
    words.push(PLAN_TAG);
    words.push(epoch);
    words.push(nm as u32);
    words.push(ns as u32);
    let ghost hw = header_words(plan_header(epoch, modules@.len(), steps@.len()));
    assert(words@ =~= hw);
    for i in 0..nm
        invariant
            nm == modules@.len(),
            words@ == hw + modules_words(modules@.take(i as int)),
    {
        let m = modules[i];
        words.push(pack_halves(m.slot, m.kind));
        assert(modules_words(modules@.take(i as int + 1)) =~= modules_words(modules@.take(i as int))
            + seq![pack16(m.slot, m.kind)]);
    }
    assert(modules@.take(nm as int) =~= modules@);
    let ghost hm = words@;
    for j in 0..ns
        invariant
            ns == steps@.len(),
            16 + 4 * nm + 36 * ns <= usize::MAX,
            words@ == hm + steps_words(steps@.take(j as int)),
    {
        let s = steps[j];
        let ghost before = words@;
        words.push(pack_halves(s.slot, s.kind));
        words.push(pack_halves(s.inputs[0], s.inputs[1]));
        words.push(pack_halves(s.inputs[2], s.inputs[3]));
        words.push(pack_halves(s.inputs[4], s.inputs[5]));
        words.push(pack_halves(s.inputs[6], s.inputs[7]));
        words.push(pack_halves(s.outputs[0], s.outputs[1]));
        words.push(pack_halves(s.outputs[2], s.outputs[3]));
        words.push(pack_halves(s.outputs[4], s.outputs[5]));
        words.push(pack_halves(s.outputs[6], s.outputs[7]));
        proof {
            let t1 = steps@.take(j as int + 1);
            let t0 = steps@.take(j as int);
            assert(words@ =~= before + step_words(s));
            assert forall|q: int| 0 <= q < 9 * t1.len() implies #[trigger] steps_words(t1)[q] == (
            steps_words(t0) + step_words(s))[q] by {
                let r = q / 9;
                let k = q % 9;
                assert(q == 9 * r + k && 0 <= k < 9) by (nonlinear_arith)
                    requires
                        r == q / 9,
                        k == q % 9,
                        q >= 0,
                ;
                lemma_block_index(9, r, k);
                if r < j {
                } else {
                    assert(r == j);
                }
            }
            assert(steps_words(t1) =~= steps_words(t0) + step_words(s));
        }
    }
    assert(steps@.take(ns as int) =~= steps@);
    words_to_bytes(&words)
}

/// Decode a plan blob. Returns `None` on any inconsistency: too short for
/// the header, not tagged as a plan, or too short for the announced records.
pub fn decode_plan(bytes: &[u8]) -> (r: Option<PlanView>)
    ensures
        r is Some <==> is_plan_blob(bytes@),
        r matches Some(v) ==> v@ == spec_decode_plan(bytes@),
{
    let len = bytes.len();
    if len < 16 {
        return None;
    }
    let tag = read_u32(bytes, 0);
    let epoch = read_u32(bytes, 4);
    let n_modules = read_u32(bytes, 8);
    let n_steps = read_u32(bytes, 12);
    if tag != PLAN_TAG {
        return None;
    }
    let need: u64 = 16 + 4 * (n_modules as u64) + 36 * (n_steps as u64);
    if (len as u64) < need {
        return None;
    }
    let header = PlanHeader { tag, epoch, n_modules, n_steps };
    assert(header == header_at(bytes@));
    let ghost sp = spec_decode_plan(bytes@);
    let nm = n_modules as usize;
    let ns = n_steps as usize;
    let mut modules: Vec<ModuleInit> = Vec::new();
    for i in 0..nm
        invariant
            nm == n_modules,
            16 + 4 * nm <= len,
            len == bytes@.len(),
            sp == spec_decode_plan(bytes@),
            sp.header.n_modules == n_modules,
            modules@ == sp.modules.take(i as int),
    {
        let w = read_u32(bytes, 16 + 4 * i);
        modules.push(ModuleInit { slot: low_half(w), kind: high_half(w) });
        assert(modules@ =~= sp.modules.take(i as int + 1));
    }
    assert(modules@ =~= sp.modules);
    let base = 16 + 4 * nm;
    let mut steps: Vec<PlanStep> = Vec::new();
    for j in 0..ns
        invariant
            ns == n_steps,
            nm == n_modules,
            base == 16 + 4 * nm,
            base + 36 * ns <= len,
            len == bytes@.len(),
            sp == spec_decode_plan(bytes@),
            sp.header.n_steps == n_steps,
            sp.header.n_modules == n_modules,
            steps@ == sp.steps.take(j as int),
    {
        let p = base + 36 * j;
        let w0 = read_u32(bytes, p);
        let w1 = read_u32(bytes, p + 4);
        let w2 = read_u32(bytes, p + 8);
        let w3 = read_u32(bytes, p + 12);
        let w4 = read_u32(bytes, p + 16);
        let w5 = read_u32(bytes, p + 20);
        let w6 = read_u32(bytes, p + 24);
        let w7 = read_u32(bytes, p + 28);
        let w8 = read_u32(bytes, p + 32);
        let step = PlanStep {
            slot: low_half(w0),
            kind: high_half(w0),
            inputs: [
                low_half(w1),
                high_half(w1),
                low_half(w2),
                high_half(w2),
                low_half(w3),
                high_half(w3),
                low_half(w4),
                high_half(w4),
            ],
            outputs: [
                low_half(w5),
                high_half(w5),
                low_half(w6),
                high_half(w6),
                low_half(w7),
                high_half(w7),
                low_half(w8),
                high_half(w8),
            ],
        };
        assert(step == step_at(bytes@, p as int));
        steps.push(step);
        assert(steps@ =~= sp.steps.take(j as int + 1));
    }
    assert(steps@ =~= sp.steps);
    Some(PlanView { header, modules, steps })
}

/// A step's words read back from its bytes give the step.
proof fn lemma_step_roundtrip(s: PlanStep, b: Seq<u8>, p: int)
    requires
        0 <= p,
        p + 36 <= b.len(),
        forall|j: int| 0 <= j < 9 ==> #[trigger] u32_at(b, p + 4 * j) == step_words(s)[j],
    ensures
        step_at(b, p) == s,
{
    assert(u32_at(b, p + 4 * 0) == step_words(s)[0]);
    assert(u32_at(b, p + 4 * 1) == step_words(s)[1]);
    assert(u32_at(b, p + 4 * 2) == step_words(s)[2]);
    assert(u32_at(b, p + 4 * 3) == step_words(s)[3]);
    assert(u32_at(b, p + 4 * 4) == step_words(s)[4]);
    assert(u32_at(b, p + 4 * 5) == step_words(s)[5]);
    assert(u32_at(b, p + 4 * 6) == step_words(s)[6]);
    assert(u32_at(b, p + 4 * 7) == step_words(s)[7]);
    assert(u32_at(b, p + 4 * 8) == step_words(s)[8]);
    lemma_pack16(s.slot, s.kind);
    lemma_pack16(s.inputs@[0], s.inputs@[1]);
    lemma_pack16(s.inputs@[2], s.inputs@[3]);
    lemma_pack16(s.inputs@[4], s.inputs@[5]);
    lemma_pack16(s.inputs@[6], s.inputs@[7]);
    lemma_pack16(s.outputs@[0], s.outputs@[1]);
    lemma_pack16(s.outputs@[2], s.outputs@[3]);
    lemma_pack16(s.outputs@[4], s.outputs@[5]);
    lemma_pack16(s.outputs@[6], s.outputs@[7]);
    let d = step_at(b, p);
    assert(d.inputs =~= s.inputs);
    assert(d.outputs =~= s.outputs);
}

/// Decoding an encoded plan gives back its epoch, its modules and its steps,
/// in order, under a plan header.
pub proof fn lemma_plan_roundtrip(epoch: u32, m: Seq<ModuleInit>, s: Seq<PlanStep>)
    requires
        m.len() <= u32::MAX,
        s.len() <= u32::MAX,
    ensures
        is_plan_blob(spec_encode_plan(epoch, m, s)),
        spec_decode_plan(spec_encode_plan(epoch, m, s)) == (SpecPlan {
            header: plan_header(epoch, m.len(), s.len()),
            modules: m,
            steps: s,
        }),
{
    let h = plan_header(epoch, m.len(), s.len());
    let hw = header_words(h);
    let mw = modules_words(m);
    let sw = steps_words(s);
    let ws = hw + mw + sw;
    let b = spec_encode_plan(epoch, m, s);
    assert(ws.len() == 4 + m.len() + 9 * s.len());
    assert(b.len() == 4 * ws.len());
    // Header words.
    lemma_le32_words_read(ws, 0);
    lemma_le32_words_read(ws, 1);
    lemma_le32_words_read(ws, 2);
    lemma_le32_words_read(ws, 3);
    assert(header_at(b) == h);
    assert(b.len() == plan_len(h));
    // Module records.
    assert forall|i: int| 0 <= i < m.len() implies #[trigger] module_at(b, 16 + 4 * i) == m[i] by {
        lemma_le32_words_read(ws, 4 + i);
        assert(ws[4 + i] == pack16(m[i].slot, m[i].kind));
        lemma_pack16(m[i].slot, m[i].kind);
    }
    // Step records.
    assert forall|j: int| 0 <= j < s.len() implies #[trigger] step_at(
        b,
        16 + 4 * m.len() + 36 * j,
    ) == s[j] by {
        let p = 16 + 4 * m.len() + 36 * j;
        assert forall|k: int| 0 <= k < 9 implies #[trigger] u32_at(b, p + 4 * k) == step_words(
            s[j],
        )[k] by {
            lemma_block_index(9, j, k);
            assert(9 * j + k < 9 * s.len()) by (nonlinear_arith)
                requires
                    0 <= j < s.len(),
                    0 <= k < 9,
            ;
            let q = 4 + m.len() + 9 * j + k;
            lemma_le32_words_read(ws, q);
            assert(ws[q] == sw[9 * j + k]);
            assert(4 * q == p + 4 * k);
        }
        assert(p + 36 <= b.len()) by (nonlinear_arith)
            requires
                p == 16 + 4 * m.len() + 36 * j,
                0 <= j < s.len(),
                b.len() == 16 + 4 * m.len() + 36 * s.len(),
        ;
        lemma_step_roundtrip(s[j], b, p);
    }
    let d = spec_decode_plan(b);
    assert(d.modules =~= m);
    assert(d.steps =~= s);
}

} // verus!
