//! Egress handle: the single serialized path onto the interface.
//!
//! Exactly one handle exists for the process lifetime; every session
//! transmits through it under exclusive access, so transmit calls never
//! overlap and the interface observes each frame's bytes as one
//! contiguous unit.

use vstd::prelude::*;

verus! {

/// The byte stream the interface observes: the transmitted frames,
/// concatenated in transmission order.
pub open spec fn byte_stream(log: Seq<Seq<u8>>) -> Seq<u8>
    decreases log.len(),
{
    if log.len() == 0 {
        Seq::empty()
    } else {
        byte_stream(log.drop_last()) + log.last()
    }
}

/// Mutual exclusion made visible on the wire: one transmit appends its
/// frame's bytes as one contiguous unit to the byte stream, so bytes of
/// two different frames never interleave — the stream is always the
/// concatenation of whole transmitted frames.
pub proof fn lemma_transmit_atomic(log: Seq<Seq<u8>>, frame: Seq<u8>)
    ensures
        byte_stream(log.push(frame)) == byte_stream(log) + frame,
{
    assert(log.push(frame).drop_last() =~= log);
    assert(log.push(frame).last() == frame);
}

/// The egress path. Its abstract state is the sequence of frames handed
/// to the interface's transmit capability, in order; exclusive access
/// (`&mut`) admits at most one in-flight transmit at any instant.
pub struct EgressHandle {
    sent: Vec<Vec<u8>>,
}

impl View for EgressHandle {
    type V = Seq<Seq<u8>>;

    closed spec fn view(&self) -> Seq<Seq<u8>> {
        self.sent@.map_values(|f: Vec<u8>| f@)
    }
}

impl EgressHandle {
    /// A fresh handle: nothing transmitted yet.
    pub fn new() -> (h: Self)
        ensures
            h@ == Seq::<Seq<u8>>::empty(),
    {
        let h = EgressHandle { sent: Vec::new() };
        proof {
            assert(h@ =~= Seq::<Seq<u8>>::empty());
        }
        h
    }

    /// Transmits one frame: it is appended, whole, to what the interface
    /// has observed. Serialized by exclusive access; nothing else can
    /// interleave with it.
    pub fn transmit(&mut self, frame: Vec<u8>)
        ensures
            final(self)@ == old(self)@.push(frame@),
            byte_stream(final(self)@) == byte_stream(old(self)@) + frame@,
    {
        let ghost frame_view = frame@;
        self.sent.push(frame);
        proof {
            assert(self@ =~= old(self)@.push(frame_view));
            lemma_transmit_atomic(old(self)@, frame_view);
        }
    }

    /// How many frames have been transmitted.
    pub fn count(&self) -> (n: usize)
        ensures
            n == self@.len(),
    {
        self.sent.len()
    }

    /// The `i`-th transmitted frame, oldest first.
    pub fn frame_at(&self, i: usize) -> (f: &Vec<u8>)
        requires
            i < self@.len(),
        ensures
            f@ == self@[i as int],
    {
        &self.sent[i]
    }
}

} // verus!
