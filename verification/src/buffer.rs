//! Channel rules of polyphonic port buffers (VCV-style): a mono buffer feeds
//! every poly lane, mismatched poly counts clamp to the last active channel,
//! and an output adopts the widest of its connected inputs.

use vstd::prelude::*;
use crate::caps::MAX_CHANNELS;

verus! {

/// Active channel count of a buffer: a stored count of 0 counts as mono.
pub open spec fn spec_active_channels(channels: u8) -> int {
    if channels == 0 {
        1
    } else {
        channels as int
    }
}

/// Active channel count of a buffer whose stored count is `channels`.
pub fn active_channels(channels: u8) -> (r: usize)
    ensures
        r == spec_active_channels(channels),
        r >= 1,
{
    if channels == 0 {
        1
    } else {
        channels as usize
    }
}

/// The stored lane that poly lane `ch` reads from a buffer of `channels`
/// channels: lane 0 of a mono buffer, else `ch` clamped to the last active
/// lane.
pub open spec fn spec_broadcast_lane(channels: u8, ch: int) -> int {
    let c = spec_active_channels(channels);
    if c == 1 {
        0
    } else if ch < c - 1 {
        ch
    } else {
        c - 1
    }
}

/// Lane index read by [`spec_broadcast_lane`].
pub fn broadcast_lane(channels: u8, ch: usize) -> (r: usize)
    ensures
        r == spec_broadcast_lane(channels, ch as int),
        r < spec_active_channels(channels),
{
    let c = active_channels(channels);
    if c == 1 {
        0
    } else if ch < c - 1 {
        ch
    } else {
        c - 1
    }
}

/// Channel count an output adopts: the widest connected input, mono when
/// nothing is connected.
pub open spec fn spec_propagate(inputs: Seq<Option<u8>>) -> int
    decreases inputs.len(),
{
    if inputs.len() == 0 {
        1
    } else {
        let rest = spec_propagate(inputs.drop_last());
        match inputs.last() {
            Some(c) => if spec_active_channels(c) > rest {
                spec_active_channels(c)
            } else {
                rest
            },
            None => rest,
        }
    }
}

/// Channel count an output should adopt given the channel counts of its
/// inputs (`None` for an unconnected input).
pub fn propagate_channels(inputs: &[Option<u8>]) -> (r: u8)
    ensures
        r == spec_propagate(inputs@),
        r >= 1,
        forall|i: int| 0 <= i < inputs@.len() ==> (#[trigger] inputs@[i] matches Some(c) ==> spec_active_channels(c) <= r),
        (exists|i: int| 0 <= i < inputs@.len() && (#[trigger] inputs@[i]).is_some() && spec_active_channels(inputs@[i].unwrap()) == r)
            || (r == 1),
{
    let mut best: u8 = 1;
    for i in 0..inputs.len()
        invariant
            best == spec_propagate(inputs@.take(i as int)),
            best >= 1,
            forall|j: int| 0 <= j < i ==> (#[trigger] inputs@[j] matches Some(c) ==> spec_active_channels(c) <= best),
            (exists|j: int| 0 <= j < i && (#[trigger] inputs@[j]).is_some() && spec_active_channels(inputs@[j].unwrap()) == best)
                || (best == 1),
    {
        assert(inputs@.take(i as int + 1).drop_last() =~= inputs@.take(i as int));
        match inputs[i] {
            Some(c) => {
                let a: u8 = if c == 0 { 1 } else { c };
                if a > best {
                    best = a;
                }
            },
            None => {},
        }
    }
    assert(inputs@.take(inputs@.len() as int) =~= inputs@);
    best
}

/// Mono buffers feed every lane: any lane of a mono buffer reads lane 0.
pub proof fn lemma_mono_broadcasts(ch: int)
    ensures
        spec_broadcast_lane(1, ch) == 0,
        spec_broadcast_lane(0, ch) == 0,
{
}

/// Poly lanes past the buffer's width read its last active lane, and lanes
/// within it read themselves.
pub proof fn lemma_poly_clamps(channels: u8, ch: int)
    requires
        channels >= 2,
        0 <= ch,
    ensures
        ch < channels ==> spec_broadcast_lane(channels, ch) == ch,
        ch >= channels ==> spec_broadcast_lane(channels, ch) == channels - 1,
{
}

/// Lanes read from a buffer of at most [`MAX_CHANNELS`] channels exist.
pub proof fn lemma_lane_in_range(channels: u8, ch: int)
    requires
        channels <= MAX_CHANNELS,
    ensures
        0 <= ch ==> 0 <= spec_broadcast_lane(channels, ch) < MAX_CHANNELS,
{
}

} // verus!
