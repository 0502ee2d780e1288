//! Frame retention and freshest-frame delivery.
//!
//! The sink at the end of the video chain retains a bounded number of decoded
//! frames and drops the oldest under backpressure.  Presentation never wants
//! to catch up on stale frames: it takes the newest buffered frame and
//! discards the rest, which bounds latency whatever the decode and render
//! speeds are.

use vstd::prelude::*;

verus! {

/// One decoded frame: its pixel bytes and the negotiated dimensions.  The
/// fixed-size pixel is four bytes wide.
pub struct Frame {
    pub data: Vec<u8>,
    pub width: u32,
    pub height: u32,
}

impl Frame {
    /// The byte length is exactly width × height × four.
    pub open spec fn wf(self) -> bool {
        self.data@.len() == self.width * self.height * 4
    }
}

/// The sink's retention buffer: at most `capacity` frames, oldest dropped
/// first.
pub struct FrameStore {
    pub frames: Vec<Frame>,
    pub capacity: usize,
}

impl FrameStore {
    /// Never over capacity, and every retained frame is well-formed.
    pub open spec fn wf(self) -> bool {
        &&& self.capacity >= 1
        &&& self.frames@.len() <= self.capacity
        &&& forall|i: int| 0 <= i < self.frames@.len() ==> self.frames@[i].wf()
    }

    pub fn new(capacity: usize) -> (s: FrameStore)
        requires
            capacity >= 1,
        ensures
            s.wf(),
            s.capacity == capacity,
            s.frames@.len() == 0,
    {
        FrameStore { frames: Vec::new(), capacity }
    }

    /// Retain a newly decoded frame.  At capacity, the oldest retained frame
    /// is dropped to make room: backpressure sheds stale output, never fresh
    /// input.
    pub fn push_frame(&mut self, fr: Frame)
        requires
            old(self).wf(),
            fr.wf(),
        ensures
            final(self).wf(),
            final(self).capacity == old(self).capacity,
            old(self).frames@.len() < old(self).capacity ==> final(self).frames@ == old(
                self,
            ).frames@.push(fr),
            old(self).frames@.len() == old(self).capacity ==> final(self).frames@ == old(
                self,
            ).frames@.subrange(1, old(self).frames@.len() as int).push(fr),
    {
        if self.frames.len() == self.capacity {
            let ghost pre = self.frames@;
            self.frames.remove(0);
            proof {
                assert(self.frames@ =~= pre.subrange(1, pre.len() as int));
            }
        }
        self.frames.push(fr);
    }

    /// Hand the newest buffered frame to `present`, discarding every older
    /// one.  With nothing buffered, nothing happens at all — the callback is
    /// not invoked — and `false` comes back.  Otherwise the callback runs
    /// exactly once, on the last frame produced, and `true` comes back.
    pub fn with_latest_frame<F: FnOnce(Frame)>(&mut self, present: F) -> (invoked: bool)
        requires
            old(self).wf(),
            old(self).frames@.len() > 0 ==> call_requires(present, (old(self).frames@.last(),)),
        ensures
            final(self).wf(),
            final(self).capacity == old(self).capacity,
            final(self).frames@.len() == 0,
            invoked == (old(self).frames@.len() > 0),
            old(self).frames@.len() > 0 ==> call_ensures(
                present,
                (old(self).frames@.last(),),
                (),
            ),
    {
        let ghost orig = self.frames@;
        if self.frames.len() == 0 {
            return false;
        }
        let mut fr = self.frames.remove(0);
        let ghost mut j: int = 1;
        proof {
            assert(self.frames@ =~= orig.skip(1));
        }
        while self.frames.len() > 0
            invariant
                self.capacity == old(self).capacity,
                self.capacity >= 1,
                1 <= j <= orig.len(),
                fr == orig[j - 1],
                self.frames@ =~= orig.skip(j),
                orig.len() <= self.capacity,
                forall|i: int| 0 <= i < orig.len() ==> orig[i].wf(),
            decreases self.frames@.len(),
        {
            let ghost pre = self.frames@;
            fr = self.frames.remove(0);
            proof {
                assert(fr == orig[j]);
                j = j + 1;
                assert(self.frames@ =~= orig.skip(j));
            }
        }
        proof {
            assert(orig.skip(j).len() == 0);
            assert(j == orig.len());
            assert(fr == orig.last());
        }
        present(fr);
        true
    }
}

} // verus!
