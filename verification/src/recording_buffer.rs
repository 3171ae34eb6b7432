//! The growable store of stereo frames that a loop is recorded into.
//!
//! A channel's amplitude is carried as the bit pattern of its IEEE-754
//! single-precision value, so that a frame is a pair of plain integers. The
//! buffer moves frames around. The one operation that computes with them,
//! the overdub, says which products and sums it takes and has its caller
//! supply the product and the sum of two samples.

use vstd::prelude::*;

verus! {

/// One channel's amplitude as the bit pattern of a single-precision value.
pub type SampleBits = u32;

/// A stereo frame: the left and the right amplitude.
pub type SamplePair = (SampleBits, SampleBits);

/// Number of silent frames in a buffer made by [`RecordingBuffer::new`].
pub const INITIAL_SIZE: usize = 102400;

/// The frame that sounds as nothing: positive zero on both channels.
pub open spec fn silent_frame() -> SamplePair {
    (0u32, 0u32)
}

/// `count` silent frames.
pub open spec fn silence(count: nat) -> Seq<SamplePair> {
    Seq::new(count, |i: int| silent_frame())
}

/// What reading position `idx` of `frames` gives: the frame there, or nothing
/// past the end.
pub open spec fn frame_at(frames: Seq<SamplePair>, idx: int) -> Option<SamplePair> {
    if 0 <= idx < frames.len() {
        Some(frames[idx])
    } else {
        None
    }
}

/// `frames` with `count` silent frames spliced in before position `at`.
pub open spec fn with_silence_at(frames: Seq<SamplePair>, at: int, count: nat) -> Seq<SamplePair>
    recommends
        0 <= at <= frames.len(),
{
    frames.subrange(0, at) + silence(count) + frames.subrange(at, frames.len() as int)
}

/// What an overdub keeps of a sample before feedback, and what playback gives
/// of it: 0.98 as the bit pattern of a single-precision value.
pub const WET_MULT: u32 = 0x3F7A_E148;

/// An operation on samples can be called on every pair of them.
pub open spec fn callable<F: Fn(u32, u32) -> u32>(op: &F) -> bool {
    forall|a: u32, b: u32| call_requires(*op, (a, b))
}

/// `mixed` is a sample that `existing * WET_MULT * feedback + incoming` may
/// give, worked out from left to right with the host's product `times` and
/// sum `plus`.
pub open spec fn blends_to<M: Fn(u32, u32) -> u32, A: Fn(u32, u32) -> u32>(
    times: &M,
    plus: &A,
    existing: u32,
    incoming: u32,
    feedback: u32,
    mixed: u32,
) -> bool {
    exists|damped: u32, kept: u32|
        {
            &&& call_ensures(*times, (existing, WET_MULT), damped)
            &&& #[trigger] call_ensures(*times, (damped, feedback), kept)
            &&& call_ensures(*plus, (kept, incoming), mixed)
        }
}

/// `mixed` is a frame that blending `incoming` into `existing` under
/// `feedback` may give: each channel is blended on its own.
pub open spec fn is_blend_of<M: Fn(u32, u32) -> u32, A: Fn(u32, u32) -> u32>(
    times: &M,
    plus: &A,
    existing: SamplePair,
    incoming: SamplePair,
    feedback: u32,
    mixed: SamplePair,
) -> bool {
    &&& blends_to(times, plus, existing.0, incoming.0, feedback, mixed.0)
    &&& blends_to(times, plus, existing.1, incoming.1, feedback, mixed.1)
}

/// An ordered, growable sequence of stereo frames.
pub struct RecordingBuffer {
    /// The frames, oldest position first.
    pub buffer: Vec<SamplePair>,
    /// Logical start offset of the recorded material.
    pub start_position: usize,
}

impl View for RecordingBuffer {
    type V = Seq<SamplePair>;

    open spec fn view(&self) -> Seq<SamplePair> {
        self.buffer@
    }
}

impl RecordingBuffer {
    /// A buffer of [`INITIAL_SIZE`] silent frames.
    pub fn new() -> (r: RecordingBuffer)
        ensures
            r@ == silence(INITIAL_SIZE as nat),
            r.start_position == 0,
    {
        RecordingBuffer::with_size(INITIAL_SIZE)
    }

    /// A buffer of `size` silent frames.
    pub fn with_size(size: usize) -> (r: RecordingBuffer)
        ensures
            r@ == silence(size as nat),
            r.start_position == 0,
    {
        let mut buffer: Vec<SamplePair> = Vec::with_capacity(size);
        let mut filled: usize = 0;
        while filled < size
            invariant
                filled <= size,
                buffer@ =~= silence(filled as nat),
            decreases size - filled,
        {
            buffer.push((0u32, 0u32));
            filled += 1;
        }
        RecordingBuffer { buffer, start_position: 0 }
    }

    /// The number of frames held.
    pub fn length(&self) -> (n: usize)
        ensures
            n == self@.len(),
    {
        self.buffer.len()
    }

    /// Splices `size` silent frames in before position `at`. Every frame that
    /// stood at `at` or later moves `size` places to the right; the frames
    /// before `at` stay where they are.
    pub fn insert_empty(&mut self, at: usize, size: usize)
        requires
            at <= old(self)@.len(),
        ensures
            final(self)@ == with_silence_at(old(self)@, at as int, size as nat),
            final(self).start_position == old(self).start_position,
    {
        let mut tail = self.buffer.split_off(at);
        let mut added: usize = 0;
        while added < size
            invariant
                added <= size,
                self.buffer@ =~= old(self)@.subrange(0, at as int) + silence(added as nat),
                self.start_position == old(self).start_position,
            decreases size - added,
        {
            self.buffer.push((0u32, 0u32));
            added += 1;
        }
        self.buffer.append(&mut tail);
    }

    /// The frame at `idx`, or `None` past the end.
    pub fn get(&self, idx: usize) -> (r: Option<&SamplePair>)
        ensures
            match r {
                Some(frame) => frame_at(self@, idx as int) == Some(*frame),
                None => frame_at(self@, idx as int) is None,
            },
    {
        if idx < self.buffer.len() {
            Some(&self.buffer[idx])
        } else {
            None
        }
    }

    /// Appends one frame at the tail.
    pub fn push(&mut self, samples: SamplePair)
        ensures
            final(self)@ == old(self)@.push(samples),
            final(self).start_position == old(self).start_position,
    {
        self.buffer.push(samples);
    }

    /// Replaces the frame at `idx` by `sample`.
    pub fn overwrite(&mut self, idx: usize, sample: SamplePair)
        requires
            idx < old(self)@.len(),
        ensures
            final(self)@ == old(self)@.update(idx as int, sample),
            final(self).start_position == old(self).start_position,
    {
        self.buffer.set(idx, sample);
    }

    /// Blends `sample` into the frame at `idx`: each channel of that frame
    /// becomes `existing * WET_MULT * feedback + incoming`, worked out from
    /// left to right with the host's product `times` and sum `plus`. Past the
    /// end nothing happens and neither is called.
    pub fn overdub<M: Fn(u32, u32) -> u32, A: Fn(u32, u32) -> u32>(
        &mut self,
        idx: usize,
        sample: SamplePair,
        feedback: u32,
        times: &M,
        plus: &A,
    )
        requires
            callable(times),
            callable(plus),
        ensures
            final(self).start_position == old(self).start_position,
            idx >= old(self)@.len() ==> final(self)@ == old(self)@,
            idx < old(self)@.len() ==> {
                &&& final(self)@ == old(self)@.update(idx as int, final(self)@[idx as int])
                &&& is_blend_of(
                    times,
                    plus,
                    old(self)@[idx as int],
                    sample,
                    feedback,
                    final(self)@[idx as int],
                )
            },
    {
        if idx < self.buffer.len() {
            let existing = self.buffer[idx];
            let left = blend(existing.0, sample.0, feedback, times, plus);
            let right = blend(existing.1, sample.1, feedback, times, plus);
            self.buffer.set(idx, (left, right));
            assert(self.buffer@ =~= old(self)@.update(idx as int, (left, right)));
        }
    }
}

/// Blends one sample: `existing * WET_MULT * feedback + incoming`, worked out
/// from left to right with the host's product `times` and sum `plus`.
pub fn blend<M: Fn(u32, u32) -> u32, A: Fn(u32, u32) -> u32>(
    existing: u32,
    incoming: u32,
    feedback: u32,
    times: &M,
    plus: &A,
) -> (mixed: u32)
    requires
        callable(times),
        callable(plus),
    ensures
        blends_to(times, plus, existing, incoming, feedback, mixed),
{
    let damped = times(existing, WET_MULT);
    let kept = times(damped, feedback);
    plus(kept, incoming)
}

impl Default for RecordingBuffer {
    /// A buffer of [`INITIAL_SIZE`] silent frames.
    fn default() -> (r: RecordingBuffer)
        ensures
            r@ == silence(INITIAL_SIZE as nat),
            r.start_position == 0,
    {
        RecordingBuffer::new()
    }
}

/// No edit makes a buffer shorter: it is always at least as long as the
/// highest position written so far.
pub proof fn lemma_buffer_never_shrinks(
    frames: Seq<SamplePair>,
    idx: int,
    sample: SamplePair,
    count: nat,
)
    requires
        0 <= idx < frames.len(),
    ensures
        frames.update(idx, sample).len() == frames.len(),
        frames.push(sample).len() == frames.len() + 1,
        with_silence_at(frames, idx, count).len() >= frames.len(),
{
}

/// A buffer made for `size` frames holds `size` frames, and each of them
/// reads as the silent frame.
pub proof fn lemma_created_buffer_is_silent(size: nat)
    ensures
        silence(size).len() == size,
        forall|idx: int|
            0 <= idx < size ==> #[trigger] frame_at(silence(size), idx) == Some(silent_frame()),
        frame_at(silence(size), size as int) is None,
{
}

/// A frame that was overwritten reads back as what was written, and every
/// other position reads as before.
pub proof fn lemma_overwrite_then_read(frames: Seq<SamplePair>, idx: int, sample: SamplePair)
    requires
        0 <= idx < frames.len(),
    ensures
        frame_at(frames.update(idx, sample), idx) == Some(sample),
        frames.update(idx, sample).len() == frames.len(),
        forall|other: int|
            other != idx ==> #[trigger] frame_at(frames.update(idx, sample), other) == frame_at(
                frames,
                other,
            ),
{
}

/// Splicing `count` silent frames in at `at` makes the buffer `count` frames
/// longer, leaves the frames before `at` where they were, puts silent frames
/// at `at` up to `at + count`, and moves each frame that stood at `at` or
/// later `count` places to the right.
pub proof fn lemma_insert_silent(frames: Seq<SamplePair>, at: int, count: nat)
    requires
        0 <= at <= frames.len(),
    ensures
        with_silence_at(frames, at, count).len() == frames.len() + count,
        forall|idx: int|
            0 <= idx < at ==> #[trigger] with_silence_at(frames, at, count)[idx] == frames[idx],
        forall|idx: int|
            at <= idx < at + count ==> #[trigger] with_silence_at(frames, at, count)[idx]
                == silent_frame(),
        forall|idx: int|
            at <= idx < frames.len() ==> #[trigger] with_silence_at(frames, at, count)[idx + count]
                == frames[idx],
{
}

} // verus!
