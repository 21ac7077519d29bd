//! Little-endian integer framing shared by every wire format of the rack:
//! control-message batches, plan blobs and meter snapshots are flat runs of
//! `u16` / `u32` words, least significant byte first.

use vstd::prelude::*;

verus! {

/// The `j`-th byte (least significant first) of a 32-bit word.
pub open spec fn byte_of_u32(x: u32, j: int) -> u8 {
    if j == 0 {
        (x as int % 256) as u8
    } else if j == 1 {
        ((x as int / 256) % 256) as u8
    } else if j == 2 {
        ((x as int / 65536) % 256) as u8
    } else {
        (x as int / 16777216) as u8
    }
}

/// Little-endian bytes of a 32-bit word.
pub open spec fn le32(x: u32) -> Seq<u8> {
    seq![byte_of_u32(x, 0), byte_of_u32(x, 1), byte_of_u32(x, 2), byte_of_u32(x, 3)]
}

/// The 32-bit word stored little-endian at byte offset `p`.
pub open spec fn u32_at(b: Seq<u8>, p: int) -> u32 {
    (b[p] as int + 256 * b[p + 1] as int + 65536 * b[p + 2] as int + 16777216 * b[p + 3] as int) as u32
}

/// Reading back a written 32-bit word gives the word.
pub proof fn lemma_u32_roundtrip(x: u32)
    ensures
        u32_at(le32(x), 0) == x,
        le32(x).len() == 4,
{
    let b0 = x as int % 256;
    let b1 = (x as int / 256) % 256;
    let b2 = (x as int / 65536) % 256;
    let b3 = x as int / 16777216;
    assert(b0 + 256 * b1 + 65536 * b2 + 16777216 * b3 == x as int) by (nonlinear_arith)
        requires
            b0 == x as int % 256,
            b1 == (x as int / 256) % 256,
            b2 == (x as int / 65536) % 256,
            b3 == x as int / 16777216,
            0 <= x <= 0xffff_ffff,
    ;
    assert(0 <= b3 < 256) by (nonlinear_arith)
        requires
            b3 == x as int / 16777216,
            0 <= x <= 0xffff_ffff,
    ;
}

/// Append a 32-bit word, least significant byte first.
pub fn push_u32(out: &mut Vec<u8>, x: u32)
    ensures
        final(out)@ == old(out)@ + le32(x),
{
    out.push((x % 256) as u8);
    out.push(((x / 256) % 256) as u8);
    out.push(((x / 65536) % 256) as u8);
    out.push((x / 16777216) as u8);
    assert(final(out)@ =~= old(out)@ + le32(x));
}

/// Read the little-endian 32-bit word at byte offset `p`.
pub fn read_u32(b: &[u8], p: usize) -> (r: u32)
    requires
        p + 4 <= b@.len(),
    ensures
        r == u32_at(b@, p as int),
{
    let v: u32 = b[p] as u32 + 256 * (b[p + 1] as u32) + 65536 * (b[p + 2] as u32) + 16777216 * (
    b[p + 3] as u32);
    v
}


/// Bytes of a run of 32-bit words, each little-endian, in order.
pub open spec fn le32_words(ws: Seq<u32>) -> Seq<u8> {
    Seq::new(4 * ws.len(), |k: int| byte_of_u32(ws[k / 4], k % 4))
}

/// Two 16-bit halves packed into one 32-bit word, low half first in memory.
pub open spec fn pack16(lo: u16, hi: u16) -> u32 {
    (lo as int + 65536 * hi as int) as u32
}

/// Low 16-bit half of a word (the half stored first).
pub open spec fn lo16(w: u32) -> u16 {
    (w as int % 65536) as u16
}

/// High 16-bit half of a word (the half stored second).
pub open spec fn hi16(w: u32) -> u16 {
    (w as int / 65536) as u16
}

/// Splitting a packed word gives back its halves.
pub proof fn lemma_pack16(lo: u16, hi: u16)
    ensures
        lo16(pack16(lo, hi)) == lo,
        hi16(pack16(lo, hi)) == hi,
        pack16(lo, hi) as int == lo as int + 65536 * hi as int,
{
}

/// Index arithmetic for runs of fixed-width records.
pub proof fn lemma_block_index(w: int, i: int, k: int)
    requires
        w > 0,
        0 <= i,
        0 <= k < w,
    ensures
        (w * i + k) / w == i,
        (w * i + k) % w == k,
{
    assert((w * i + k) / w == i && (w * i + k) % w == k) by (nonlinear_arith)
        requires
            w > 0,
            0 <= i,
            0 <= k < w,
    ;
}

/// The `q`-th word of a run reads back from byte offset `4 * q`.
pub proof fn lemma_le32_words_read(ws: Seq<u32>, q: int)
    requires
        0 <= q < ws.len(),
    ensures
        u32_at(le32_words(ws), 4 * q) == ws[q],
        le32_words(ws).len() == 4 * ws.len(),
{
    let b = le32_words(ws);
    lemma_block_index(4, q, 0);
    lemma_block_index(4, q, 1);
    lemma_block_index(4, q, 2);
    lemma_block_index(4, q, 3);
    assert(b[4 * q] == byte_of_u32(ws[q], 0));
    assert(b[4 * q + 1] == byte_of_u32(ws[q], 1));
    assert(b[4 * q + 2] == byte_of_u32(ws[q], 2));
    assert(b[4 * q + 3] == byte_of_u32(ws[q], 3));
    lemma_u32_roundtrip(ws[q]);
}

/// Byte runs of concatenated word runs concatenate.
pub proof fn lemma_le32_words_concat(a: Seq<u32>, b: Seq<u32>)
    ensures
        le32_words(a + b) == le32_words(a) + le32_words(b),
{
    let l = le32_words(a + b);
    let r = le32_words(a) + le32_words(b);
    assert forall|k: int| 0 <= k < l.len() implies l[k] == r[k] by {
        let q = k / 4;
        let t = k % 4;
        assert(k == 4 * q + t && 0 <= t < 4) by (nonlinear_arith)
            requires
                q == k / 4,
                t == k % 4,
                k >= 0,
        ;
        if q < a.len() {
            assert(r[k] == le32_words(a)[k]);
        } else {
            let k2 = k - 4 * a.len();
            lemma_block_index(4, q - a.len(), t);
            assert(k2 == 4 * (q - a.len()) + t);
            assert(r[k] == le32_words(b)[k2]);
        }
    }
    assert(l =~= r);
}

/// Pack two 16-bit halves into one word.
pub fn pack_halves(lo: u16, hi: u16) -> (r: u32)
    ensures
        r == pack16(lo, hi),
{
    lo as u32 + 65536 * (hi as u32)
}

/// The half of a word stored first.
pub fn low_half(w: u32) -> (r: u16)
    ensures
        r == lo16(w),
{
    (w % 65536) as u16
}

/// The half of a word stored second.
pub fn high_half(w: u32) -> (r: u16)
    ensures
        r == hi16(w),
{
    (w / 65536) as u16
}

/// Convert a run of words to its little-endian bytes.
pub fn words_to_bytes(ws: &Vec<u32>) -> (r: Vec<u8>)
    requires
        4 * ws@.len() <= usize::MAX,
    ensures
        r@ == le32_words(ws@),
{
    let mut out: Vec<u8> = Vec::with_capacity(4 * ws.len());
    let n = ws.len();
    for i in 0..n
        invariant
            n == ws@.len(),
            out@ == le32_words(ws@.take(i as int)),
    {
        let ghost before = out@;
        push_u32(&mut out, ws[i]);
        proof {
            assert(ws@.take(i as int + 1) =~= ws@.take(i as int) + seq![ws@[i as int]]);
            lemma_le32_words_concat(ws@.take(i as int), seq![ws@[i as int]]);
            assert(le32_words(seq![ws@[i as int]]) =~= le32(ws@[i as int]));
        }
    }
    assert(ws@.take(n as int) =~= ws@);
    out
}

} // verus!
