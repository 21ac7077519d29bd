//! Engine -> UI meter snapshots: per-module peak plus a short waveform tap.
//! Layout, all little-endian: `MeterHeader (2 x u32) | MeterEntry x n`, each
//! entry being `slot: u16, pad: u16, peak: u32, scope: 128 x u32` (520 bytes).
//! Sample values travel as the bit patterns of IEEE-754 single floats.

use vstd::prelude::*;
use std::collections::HashMap;
use crate::wire::{
    hi16, high_half, le32_words, lemma_block_index, lemma_le32_words_read, lemma_pack16, lo16,
    low_half, pack16, pack_halves, read_u32, u32_at, words_to_bytes,
};

verus! {

broadcast use vstd::std_specs::hash::group_hash_axioms;

/// First u32 of a meter blob (distinct from message tags and the plan tag).
pub const METER_TAG: u32 = 200;

/// Scope samples per module. Collected at 1/4 sample rate, so 128 samples
/// span ~10.7 ms at 48 kHz.
pub const SCOPE_LEN: usize = 128;
/// Decimation factor for scope collection.
pub const SCOPE_DECIM: usize = 4;

/// Bytes of one [`MeterEntry`] on the wire.
pub const METER_ENTRY_SIZE: usize = 520;

#[derive(Clone, Copy, Debug, PartialEq, Eq, Structural)]
pub struct MeterHeader {
    pub tag: u32,
    pub n_entries: u32,
}

/// One module's meter reading. `peak` and `scope` hold float bit patterns.
#[derive(Clone, Copy, Debug)]
pub struct MeterEntry {
    pub slot: u16,
    pub _pad: u16,
    /// Peak |voltage| on the module's first output since the last snapshot.
    pub peak: u32,
    /// Most recent waveform, oldest sample first.
    pub scope: [u32; 128],
}

impl Default for MeterEntry {
    fn default() -> (r: MeterEntry)
        ensures
            r.slot == 0,
            r._pad == 0,
            r.peak == 0,
            forall|k: int| 0 <= k < 128 ==> r.scope@[k] == 0,
    {
        MeterEntry { slot: 0, _pad: 0, peak: 0, scope: [0u32; 128] }
    }
}

/// Wire words of one entry.
pub open spec fn entry_words(e: MeterEntry) -> Seq<u32> {
    seq![pack16(e.slot, e._pad), e.peak] + e.scope@
}

/// Wire words of a list of entries.
pub open spec fn entries_words(s: Seq<MeterEntry>) -> Seq<u32> {
    Seq::new(130 * s.len(), |q: int| entry_words(s[q / 130])[q % 130])
}

/// Bytes of an encoded snapshot.
pub open spec fn spec_encode_meters(s: Seq<MeterEntry>) -> Seq<u8> {
    le32_words(seq![METER_TAG, s.len() as u32] + entries_words(s))
}

/// `e` is the entry whose 520 bytes start at offset `p` of `b`.
pub open spec fn entry_at(b: Seq<u8>, p: int, e: MeterEntry) -> bool {
    &&& e.slot == lo16(u32_at(b, p))
    &&& e._pad == hi16(u32_at(b, p))
    &&& e.peak == u32_at(b, p + 4)
    &&& forall|k: int| 0 <= k < 128 ==> #[trigger] e.scope@[k] == u32_at(b, p + 8 + 4 * k)
}

/// When a blob is a meter snapshot: long enough for its header, tagged as
/// meters, and long enough for every entry the header announces.
pub open spec fn is_meter_blob(b: Seq<u8>) -> bool {
    &&& b.len() >= 8
    &&& u32_at(b, 0) == METER_TAG
    &&& b.len() >= 8 + 520 * u32_at(b, 4)
}

/// `v` is what the meter blob `b` decodes to.
pub open spec fn decodes_to(b: Seq<u8>, v: Seq<MeterEntry>) -> bool {
    &&& v.len() == u32_at(b, 4)
    &&& forall|i: int| 0 <= i < v.len() ==> #[trigger] entry_at(b, 8 + 520 * i, v[i])
}

/// Serialize a snapshot.
pub fn encode_meters(entries: &[MeterEntry]) -> (r: Vec<u8>)
    requires
        entries@.len() <= u32::MAX,
        8 + 520 * entries@.len() <= usize::MAX,
    ensures
        r@ == spec_encode_meters(entries@),
{
    let n = entries.len();
    let mut words: Vec<u32> = Vec::with_capacity(2 + 130 * n);
    words.push(METER_TAG);
    words.push(n as u32);
    let ghost hw = seq![METER_TAG, n as u32];
    assert(words@ =~= hw);
    for i in 0..n
        invariant
            n == entries@.len(),
            8 + 520 * n <= usize::MAX,
            words@ == hw + entries_words(entries@.take(i as int)),
    {
        let e = entries[i];
        let ghost before = words@;
        words.push(pack_halves(e.slot, e._pad));
        words.push(e.peak);
        for k in 0..128
            invariant
                words@ == before + seq![pack16(e.slot, e._pad), e.peak] + e.scope@.take(k as int),
        {
            words.push(e.scope[k]);
            assert(e.scope@.take(k as int + 1) =~= e.scope@.take(k as int) + seq![e.scope@[k as int]]);
        }
        proof {
            assert(e.scope@.take(128) =~= e.scope@);
            let t1 = entries@.take(i as int + 1);
            let t0 = entries@.take(i as int);
            assert(words@ =~= before + entry_words(e));
            assert forall|q: int| 0 <= q < 130 * t1.len() implies #[trigger] entries_words(t1)[q]
                == (entries_words(t0) + entry_words(e))[q] by {
                let r = q / 130;
                let k = q % 130;
                assert(q == 130 * r + k && 0 <= k < 130) by (nonlinear_arith)
                    requires
                        r == q / 130,
                        k == q % 130,
                        q >= 0,
                ;
                lemma_block_index(130, r, k);
                if r == i {
                    assert(130 * t0.len() == 130 * r);
                }
            }
            assert(entries_words(t1) =~= entries_words(t0) + entry_words(e));
        }
    }
    assert(entries@.take(n as int) =~= entries@);
    words_to_bytes(&words)
}

/// Decode a snapshot; `None` when the blob is too short for its header, is
/// not tagged as meters, or is too short for the entries it announces.
pub fn decode_meters(bytes: &[u8]) -> (r: Option<Vec<MeterEntry>>)
    ensures
        r is Some <==> is_meter_blob(bytes@),
        r matches Some(v) ==> decodes_to(bytes@, v@),
{
    let len = bytes.len();
    if len < 8 {
        return None;
    }
    let tag = read_u32(bytes, 0);
    if tag != METER_TAG {
        return None;
    }
    let n_entries = read_u32(bytes, 4);
    let need: u64 = 8 + 520 * (n_entries as u64);
    if (len as u64) < need {
        return None;
    }
    let n = n_entries as usize;
    let mut out: Vec<MeterEntry> = Vec::new();
    for i in 0..n
        invariant
            n == n_entries,
            n_entries == u32_at(bytes@, 4),
            8 + 520 * n <= len,
            len == bytes@.len(),
            out@.len() == i,
            forall|j: int| 0 <= j < i ==> #[trigger] entry_at(bytes@, 8 + 520 * j, out@[j]),
    {
        let p = 8 + 520 * i;
        let w = read_u32(bytes, p);
        let peak = read_u32(bytes, p + 4);
        let mut scope = [0u32; 128];
        for k in 0..128
            invariant
                p == 8 + 520 * i,
                p + 520 <= len,
                len == bytes@.len(),
                forall|t: int| 0 <= t < k ==> #[trigger] scope@[t] == u32_at(bytes@, p + 8 + 4 * t),
        {
            let v = read_u32(bytes, p + 8 + 4 * k);
            scope[k] = v;
        }
        let e = MeterEntry { slot: low_half(w), _pad: high_half(w), peak, scope };
        out.push(e);
    }
    Some(out)
}

/// Two entries read from the same bytes are the same entry.
pub proof fn lemma_entry_at_unique(b: Seq<u8>, p: int, e1: MeterEntry, e2: MeterEntry)
    requires
        entry_at(b, p, e1),
        entry_at(b, p, e2),
    ensures
        e1 == e2,
{
    assert(e1.scope =~= e2.scope);
}

/// Decoding an encoded snapshot gives back exactly the entries that were
/// encoded: a snapshot blob decodes, and to the sent entries only.
pub proof fn lemma_meters_roundtrip(s: Seq<MeterEntry>, v: Seq<MeterEntry>)
    requires
        s.len() <= u32::MAX,
    ensures
        is_meter_blob(spec_encode_meters(s)),
        decodes_to(spec_encode_meters(s), s),
        decodes_to(spec_encode_meters(s), v) ==> v == s,
{
    let ew = entries_words(s);
    let ws = seq![METER_TAG, s.len() as u32] + ew;
    let b = spec_encode_meters(s);
    assert(b.len() == 4 * ws.len());
    lemma_le32_words_read(ws, 0);
    lemma_le32_words_read(ws, 1);
    assert(u32_at(b, 4) == s.len());
    assert forall|i: int| 0 <= i < s.len() implies #[trigger] entry_at(b, 8 + 520 * i, s[i]) by {
        let e = s[i];
        let p = 8 + 520 * i;
        assert forall|k: int| 0 <= k < 130 implies #[trigger] u32_at(b, p + 4 * k) == entry_words(
            e,
        )[k] by {
            lemma_block_index(130, i, k);
            assert(130 * i + k < 130 * s.len()) by (nonlinear_arith)
                requires
                    0 <= i < s.len(),
                    0 <= k < 130,
            ;
            let q = 2 + 130 * i + k;
            lemma_le32_words_read(ws, q);
            assert(ws[q] == ew[130 * i + k]);
            assert(4 * q == p + 4 * k);
        }
        assert(u32_at(b, p + 4 * 0) == entry_words(e)[0]);
        assert(u32_at(b, p + 4 * 1) == entry_words(e)[1]);
        lemma_pack16(e.slot, e._pad);
        assert forall|k: int| 0 <= k < 128 implies #[trigger] e.scope@[k] == u32_at(b, p + 8 + 4 * k) by {
            assert(u32_at(b, p + 4 * (k + 2)) == entry_words(e)[k + 2]);
            assert(p + 4 * (k + 2) == p + 8 + 4 * k);
        }
    }
    if decodes_to(b, v) {
        assert forall|i: int| 0 <= i < s.len() implies v[i] == s[i] by {
            lemma_entry_at_unique(b, 8 + 520 * i, v[i], s[i]);
        }
        assert(v =~= s);
    }
}

/// Latest meter entry per slot after taking in `entries` in order: a later
/// entry for the same slot replaces an earlier one.
pub open spec fn meter_map(entries: Seq<MeterEntry>) -> Map<u16, MeterEntry>
    decreases entries.len(),
{
    if entries.len() == 0 {
        Map::empty()
    } else {
        meter_map(entries.drop_last()).insert(entries.last().slot, entries.last())
    }
}

/// Refresh the UI's meter store from a snapshot blob: a valid snapshot
/// replaces the whole store (slots absent from it disappear); anything else
/// leaves the store as it was. Returns whether the blob was a snapshot.
pub fn store_meters(store: &mut HashMap<u16, MeterEntry>, bytes: &[u8]) -> (stored: bool)
    ensures
        stored == is_meter_blob(bytes@),
        !stored ==> final(store)@ == old(store)@,
        stored ==> exists|v: Seq<MeterEntry>| decodes_to(bytes@, v) && final(store)@ == meter_map(v),
{
    match decode_meters(bytes) {
        None => false,
        Some(entries) => {
            store.clear();
            for i in 0..entries.len()
                invariant
                    store@ == meter_map(entries@.take(i as int)),
            {
                assert(entries@.take(i + 1).drop_last() =~= entries@.take(i as int));
                store.insert(entries[i].slot, entries[i]);
            }
            assert(entries@.take(entries.len() as int) =~= entries@);
            true
        },
    }
}

} // verus!
