//! Presentation-time continuity at the encoder.
//!
//! Within one item every frame advances presentation time by at most one
//! frame interval. At an item boundary the selector re-bases the next
//! item's first frame to exactly one frame interval after the last frame of
//! the finished one. The timeline keeps a ghost history of every
//! presentation time handed to the encoder; the history is strictly
//! increasing and never jumps by more than one frame interval, item
//! boundaries included.

use vstd::prelude::*;

verus! {

/// The encoder-facing presentation-time tracker.
pub struct OutputTimeline {
    last_pts_ns: Option<u64>,
    frame_duration_ns: u64,
    history: Ghost<Seq<u64>>,
}

impl OutputTimeline {
    /// The presentation time of the last frame handed to the encoder.
    pub closed spec fn spec_last(&self) -> Option<u64> {
        self.last_pts_ns
    }

    /// The fixed length of one output frame, in nanoseconds.
    pub closed spec fn spec_frame_duration(&self) -> u64 {
        self.frame_duration_ns
    }

    /// Every presentation time handed to the encoder so far, in order.
    pub closed spec fn spec_history(&self) -> Seq<u64> {
        self.history@
    }

    /// The frame interval is positive, the history is strictly increasing
    /// with steps of at most one frame interval, and the clock has room to
    /// advance.
    pub closed spec fn wf(&self) -> bool {
        &&& self.frame_duration_ns > 0
        &&& (match self.last_pts_ns {
            Some(l) => self.history@.len() > 0 && self.history@.last() == l && l
                + self.frame_duration_ns <= u64::MAX,
            None => self.history@.len() == 0,
        })
        &&& forall|j: int|
            0 < j < self.history@.len() ==> self.history@[j - 1] < #[trigger] self.history@[j]
                && self.history@[j] <= self.history@[j - 1] + self.frame_duration_ns
    }

    /// A fresh timeline for the given frame interval; nothing emitted yet.
    pub fn new(frame_duration_ns: u64) -> (r: Self)
        requires
            frame_duration_ns > 0,
        ensures
            r.wf(),
            r.spec_last() is None,
            r.spec_frame_duration() == frame_duration_ns,
            r.spec_history() == Seq::<u64>::empty(),
    {
        OutputTimeline { last_pts_ns: None, frame_duration_ns, history: Ghost(Seq::empty()) }
    }

    /// Record one frame handed to the encoder. Presentation time advances,
    /// and by no more than one frame interval.
    pub fn push_frame(&mut self, pts_ns: u64)
        requires
            old(self).wf(),
            match old(self).spec_last() {
                Some(l) => l < pts_ns <= l + old(self).spec_frame_duration(),
                None => pts_ns <= old(self).spec_frame_duration(),
            },
            pts_ns + old(self).spec_frame_duration() <= u64::MAX,
        ensures
            final(self).wf(),
            final(self).spec_last() == Some(pts_ns),
            final(self).spec_frame_duration() == old(self).spec_frame_duration(),
            final(self).spec_history() == old(self).spec_history().push(pts_ns),
    {
        self.last_pts_ns = Some(pts_ns);
        self.history = Ghost(self.history@.push(pts_ns));
        proof {
            let h = self.history@;
            let h0 = old(self).history@;
            assert forall|j: int|
                0 < j < h.len() implies h[j - 1] < #[trigger] h[j] && h[j] <= h[j - 1]
                + self.frame_duration_ns by {
                if j < h.len() - 1 {
                    assert(h[j] == h0[j]);
                    assert(h[j - 1] == h0[j - 1]);
                } else {
                    assert(h[j] == pts_ns);
                }
            }
        }
    }

    /// The presentation time the next item's first frame is re-based to:
    /// one frame interval after the last frame, or zero on a fresh stream.
    pub fn boundary_pts(&self) -> (r: u64)
        requires
            self.wf(),
        ensures
            match self.spec_last() {
                Some(l) => r == l + self.spec_frame_duration(),
                None => r == 0,
            },
    {
        match self.last_pts_ns {
            Some(l) => l + self.frame_duration_ns,
            None => 0,
        }
    }
}

/// The encoder never observes a presentation-time gap of more than one
/// frame interval: over the whole history, item boundaries included, each
/// frame follows the one before it by at most one frame's length.
pub proof fn lemma_no_output_gap(t: &OutputTimeline)
    requires
        t.wf(),
    ensures
        forall|j: int|
            0 < j < t.spec_history().len() ==> t.spec_history()[j - 1] < #[trigger] t.spec_history()[j]
                && t.spec_history()[j] <= t.spec_history()[j - 1] + t.spec_frame_duration(),
{
}

/// Whether a reactivated pad gets a fresh segment, and at which start time:
/// only once its sticky stream-start and caps are in place, and then always
/// re-based to time zero.
pub fn reactivation_segment(has_stream_start: bool, has_caps: bool) -> (r: Option<u64>)
    ensures
        r == Some(0u64) <==> has_stream_start && has_caps,
        r is None <==> !(has_stream_start && has_caps),
{
    if has_stream_start && has_caps {
        Some(0)
    } else {
        None
    }
}

} // verus!
