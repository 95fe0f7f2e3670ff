//! The consumer side: the routine the audio backend calls for every block.

use vstd::prelude::*;
use crate::fifo::{accepted, after_append, block, dropped, leftover, silence, OverflowPolicy};
use crate::format::NegotiatedFormat;
use crate::queue::{Appended, SampleQueue};
use crate::sample::Sample;

verus! {

/// What a pull finds, judged by the queue's occupancy at that pull alone.
#[derive(Clone, Copy, Debug, PartialEq, Eq, Structural)]
pub enum PullState {
    /// Nothing is queued: the block is all silence.
    Idle,
    /// Enough is queued: the block is all samples.
    Streaming,
    /// Something is queued, but less than a block: samples, then silence.
    Underrun,
}

/// The state of a pull of `want` samples from a queue holding `pending`.
pub open spec fn pull_state(pending: nat, want: nat) -> PullState {
    if pending == 0 {
        PullState::Idle
    } else if pending < want {
        PullState::Underrun
    } else {
        PullState::Streaming
    }
}

/// The underrun counter after a pull of `want` samples from a queue holding
/// `pending`: one more if the block had to be padded, and it stops at
/// `u64::MAX` instead of wrapping.
pub open spec fn underruns_after(count: u64, pending: nat, want: nat) -> u64 {
    if pending < want && count < u64::MAX {
        (count + 1) as u64
    } else {
        count
    }
}

/// The abstract state of a `NesAudioCallback`.
pub struct CallbackView {
    /// The queued samples, oldest first.
    pub pending: Seq<Sample>,
    /// The most samples the queue ever holds.
    pub capacity: usize,
    /// What the queue does with samples that do not fit.
    pub policy: OverflowPolicy,
    /// The format the callback was built for.
    pub format: NegotiatedFormat,
    /// How many pulls have had to be padded with silence so far.
    pub underruns: u64,
}

/// Overwrites `out` with silence from index `from` to its end and leaves what
/// comes before `from` as it is.
pub(crate) fn pad_with_silence(out: &mut [Sample], from: usize)
    requires
        from <= old(out)@.len(),
    ensures
        final(out)@ == old(out)@.take(from as int) + silence((old(out)@.len() - from) as nat),
{
    let want: usize = out.len();
    let mut i: usize = from;
    while i < want
        invariant
            from <= i <= want,
            want == out@.len(),
            out@.take(from as int) == old(out)@.take(from as int),
            forall|j: int| from <= j < i ==> out@[j] == Sample::silence(),
        decreases want - i,
    {
        out[i] = Sample::silence();
        i += 1;
    }
}

/// The drain callback together with the sample queue it owns.
pub struct NesAudioCallback {
    samples: SampleQueue,
    format: NegotiatedFormat,
    underruns: u64,
}

impl View for NesAudioCallback {
    type V = CallbackView;

    closed spec fn view(&self) -> CallbackView {
        CallbackView {
            pending: self.samples@,
            capacity: self.samples.capacity(),
            policy: self.samples.policy(),
            format: self.format,
            underruns: self.underruns,
        }
    }
}

impl NesAudioCallback {
    /// A callback bound to `format`, with an empty queue of the given
    /// capacity and overflow policy and no underruns counted.
    pub fn new(format: NegotiatedFormat, capacity: usize, policy: OverflowPolicy) -> (cb:
        NesAudioCallback)
        ensures
            cb@ == (CallbackView {
                pending: Seq::empty(),
                capacity,
                policy,
                format,
                underruns: 0,
            }),
    {
        NesAudioCallback { samples: SampleQueue::new(capacity, policy), format, underruns: 0 }
    }

    /// Fills `out` completely: with the oldest queued samples in order, and,
    /// where the queue runs out, with silence from there to the end of the
    /// block. The samples written are removed from the queue; a block that
    /// needed padding is counted as an underrun.
    pub fn callback(&mut self, out: &mut [Sample])
        ensures
            final(out)@ == block(old(self)@.pending, old(out)@.len()),
            final(self)@ == (CallbackView {
                pending: leftover(old(self)@.pending, old(out)@.len()),
                underruns: underruns_after(
                    old(self)@.underruns,
                    old(self)@.pending.len(),
                    old(out)@.len(),
                ),
                ..old(self)@
            }),
    {
        let want: usize = out.len();
        let count: usize = self.samples.drain_into(out);
        if count < want {
            pad_with_silence(out, count);
            if self.underruns < u64::MAX {
                self.underruns += 1;
            }
        }
    }

    /// Appends `samples` to the queue under its overflow policy.
    pub fn push(&mut self, samples: &[Sample]) -> (done: Appended)
        ensures
            final(self)@ == (CallbackView {
                pending: after_append(
                    old(self)@.pending,
                    old(self)@.capacity as nat,
                    old(self)@.policy,
                    samples@,
                ),
                ..old(self)@
            }),
            done.accepted == accepted(
                old(self)@.pending.len(),
                old(self)@.capacity as nat,
                old(self)@.policy,
                samples@.len(),
            ),
            done.dropped == dropped(
                old(self)@.pending.len(),
                old(self)@.capacity as nat,
                old(self)@.policy,
                samples@.len(),
            ),
    {
        self.samples.append(samples)
    }

    /// The state that a pull of `want` samples would find right now.
    pub fn pull_state(&self, want: usize) -> (state: PullState)
        ensures
            state == pull_state(self@.pending.len(), want as nat),
    {
        let pending: usize = self.samples.len();
        if pending == 0 {
            PullState::Idle
        } else if pending < want {
            PullState::Underrun
        } else {
            PullState::Streaming
        }
    }

    /// The format the callback was built for.
    pub fn format(&self) -> (format: NegotiatedFormat)
        ensures
            format == self@.format,
    {
        self.format
    }

    /// How many pulls have had to be padded with silence so far.
    pub fn underruns(&self) -> (count: u64)
        ensures
            count == self@.underruns,
    {
        self.underruns
    }

    /// The number of queued samples; it never exceeds the capacity.
    pub fn len(&self) -> (n: usize)
        ensures
            n == self@.pending.len(),
            n <= self@.capacity,
    {
        self.samples.len()
    }

    /// The most samples the queue ever holds.
    pub fn capacity(&self) -> (capacity: usize)
        ensures
            capacity == self@.capacity,
    {
        self.samples.capacity()
    }

    /// What the queue does with samples that do not fit.
    pub fn policy(&self) -> (policy: OverflowPolicy)
        ensures
            policy == self@.policy,
    {
        self.samples.policy()
    }

    /// How many more samples fit before the queue is full: what a producer
    /// under the `Block` policy waits for.
    pub fn free_space(&self) -> (n: usize)
        ensures
            n == self@.capacity - self@.pending.len(),
    {
        self.samples.free_space()
    }
}

} // verus!
