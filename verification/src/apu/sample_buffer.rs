//! Host-facing buffer of generated audio frames, bounded so a host that falls
//! behind never makes it grow without limit.
//!
//! The buffer is generic over the frame type: the audio front end stores its
//! stereo frames in it.

use vstd::prelude::*;

verus! {

/// Target host sample rate (frames per second).
pub const HOST_SAMPLE_RATE: u32 = 48_000;

/// Most frames kept (about one second at [`HOST_SAMPLE_RATE`]).
pub const SAMPLE_BUFFER_CAP: usize = 48_000;

/// Frames dropped from the front when a push finds the buffer full.
pub const SAMPLE_BUFFER_DROP: usize = 12_000;

pub struct SampleBuffer<S> {
    samples: Vec<S>,
}

impl<S> View for SampleBuffer<S> {
    type V = Seq<S>;

    closed spec fn view(&self) -> Seq<S> {
        self.samples@
    }
}

/// Frames kept after pushing `sample` onto `frames`: when the buffer is full
/// its oldest quarter goes first.
pub open spec fn spec_after_push<S>(frames: Seq<S>, sample: S) -> Seq<S> {
    if frames.len() >= SAMPLE_BUFFER_CAP {
        frames.skip(SAMPLE_BUFFER_DROP as int).push(sample)
    } else {
        frames.push(sample)
    }
}

impl<S> SampleBuffer<S> {
    #[verifier::type_invariant]
    spec fn bounded(self) -> bool {
        self.samples@.len() <= SAMPLE_BUFFER_CAP
    }

    pub fn new() -> (b: Self)
        ensures
            b@ == Seq::<S>::empty(),
    {
        SampleBuffer { samples: Vec::new() }
    }

    pub fn len(&self) -> (r: usize)
        ensures
            r == self@.len(),
            r <= SAMPLE_BUFFER_CAP,
    {
        proof {
            use_type_invariant(self);
        }
        self.samples.len()
    }

    pub fn is_empty(&self) -> (r: bool)
        ensures
            r == (self@.len() == 0),
    {
        self.samples.len() == 0
    }

    /// Append one frame, first dropping the oldest quarter if the buffer is full.
    pub fn push(&mut self, sample: S)
        ensures
            final(self)@ == spec_after_push(old(self)@, sample),
            final(self)@.len() <= SAMPLE_BUFFER_CAP,
    {
        proof {
            use_type_invariant(&*self);
        }
        let mut frames: Vec<S> = Vec::new();
        std::mem::swap(&mut frames, &mut self.samples);
        if frames.len() >= SAMPLE_BUFFER_CAP {
            let rest = frames.split_off(SAMPLE_BUFFER_DROP);
            frames = rest;
        }
        frames.push(sample);
        self.samples = frames;
    }

    /// Hand out every buffered frame, oldest first, leaving the buffer empty.
    pub fn drain(&mut self) -> (out: Vec<S>)
        ensures
            out@ == old(self)@,
            final(self)@ == Seq::<S>::empty(),
    {
        let mut out: Vec<S> = Vec::new();
        std::mem::swap(&mut out, &mut self.samples);
        out
    }
}

/// Every frame pushed is kept until a push finds the buffer full; what stays
/// is always the most recent frames, in order, the newest last.
pub proof fn lemma_push_keeps_recent<S>(frames: Seq<S>, sample: S)
    requires
        frames.len() <= SAMPLE_BUFFER_CAP,
    ensures
        spec_after_push(frames, sample).len() <= SAMPLE_BUFFER_CAP,
        spec_after_push(frames, sample).last() == sample,
        frames.len() < SAMPLE_BUFFER_CAP ==> spec_after_push(frames, sample).drop_last() == frames,
        frames.len() == SAMPLE_BUFFER_CAP ==> spec_after_push(frames, sample).drop_last()
            == frames.subrange(SAMPLE_BUFFER_DROP as int, frames.len() as int),
{
    if frames.len() >= SAMPLE_BUFFER_CAP {
        assert(frames.skip(SAMPLE_BUFFER_DROP as int).push(sample).drop_last()
            =~= frames.subrange(SAMPLE_BUFFER_DROP as int, frames.len() as int));
    } else {
        assert(frames.push(sample).drop_last() =~= frames);
    }
}

} // verus!
