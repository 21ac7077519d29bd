//! Main-thread side of the control path: UI mutations queue control
//! records while the audio engine is attached, and the queue is flushed as
//! one byte batch per UI frame once the engine is running.

use vstd::prelude::*;
use crate::messages::{encode_batch, spec_encode_batch, Msg};

verus! {

/// Lifecycle of the audio engine as seen by the UI.
#[derive(Clone, Copy, Debug, PartialEq, Eq, Structural)]
pub enum LinkState {
    Off,
    Starting,
    Running,
}

impl Default for LinkState {
    fn default() -> (r: LinkState)
        ensures
            r == LinkState::Off,
    {
        LinkState::Off
    }
}

/// The link state given whether an audio system is attached and whether it
/// reported ready.
pub fn link_state(attached: bool, ready: bool) -> (r: LinkState)
    ensures
        r == (if !attached {
            LinkState::Off
        } else if ready {
            LinkState::Running
        } else {
            LinkState::Starting
        }),
{
    if !attached {
        LinkState::Off
    } else if ready {
        LinkState::Running
    } else {
        LinkState::Starting
    }
}

/// Queue of control records waiting for the next flush.
pub struct MsgQueue {
    queue: Vec<Msg>,
}

impl View for MsgQueue {
    type V = Seq<Msg>;

    closed spec fn view(&self) -> Seq<Msg> {
        self.queue@
    }
}

impl MsgQueue {
    pub fn new() -> (r: MsgQueue)
        ensures
            r@ == Seq::<Msg>::empty(),
    {
        MsgQueue { queue: Vec::new() }
    }

    /// Queue a record; records sent while no engine is attached are dropped.
    pub fn send(&mut self, attached: bool, msg: Msg)
        ensures
            final(self)@ == (if attached {
                old(self)@.push(msg)
            } else {
                old(self)@
            }),
    {
        if attached {
            self.queue.push(msg);
        }
    }

    /// Drop everything queued (power off).
    /// Number of queued records.
    pub fn len(&self) -> (r: usize)
        ensures
            r == self@.len(),
    {
        self.queue.len()
    }

    pub fn clear(&mut self)
        ensures
            final(self)@ == Seq::<Msg>::empty(),
    {
        self.queue = Vec::new();
    }

    /// Flush: when an engine is attached and ready and records are queued,
    /// hand them all over as one batch and empty the queue; otherwise keep
    /// them.
    pub fn flush(&mut self, attached: bool, ready: bool) -> (r: Option<Vec<u8>>)
        requires
            32 * old(self)@.len() <= usize::MAX,
        ensures
            (attached && ready && old(self)@.len() > 0) ==> {
                &&& r matches Some(b) && b@ == spec_encode_batch(old(self)@)
                &&& final(self)@ == Seq::<Msg>::empty()
            },
            !(attached && ready && old(self)@.len() > 0) ==> {
                &&& r is None
                &&& final(self)@ == old(self)@
            },
    {
        if !attached || self.queue.len() == 0 || !ready {
            return None;
        }
        let bytes = encode_batch(self.queue.as_slice());
        self.queue = Vec::new();
        Some(bytes)
    }
}

} // verus!
