//! The bounded FIFO queue of pending output samples.

use vstd::prelude::*;
use std::collections::VecDeque;
use crate::fifo::{accepted, after_append, delivered, dropped, leftover, newest, OverflowPolicy};
use crate::sample::Sample;

verus! {

/// What an append did with the samples it was offered.
#[derive(Clone, Copy, Debug, PartialEq, Eq, Structural)]
pub struct Appended {
    /// How many of the offered samples were taken in, from the front.
    pub accepted: usize,
    /// How many samples were discarded to stay within the capacity.
    pub dropped: usize,
}

/// Pending output samples in delivery order, oldest first, never more than
/// the capacity chosen at construction.
pub struct SampleQueue {
    items: VecDeque<Sample>,
    capacity: usize,
    policy: OverflowPolicy,
}

impl View for SampleQueue {
    type V = Seq<Sample>;

    /// The queued samples, oldest first.
    closed spec fn view(&self) -> Seq<Sample> {
        self.items@
    }
}

impl SampleQueue {
    #[verifier::type_invariant]
    spec fn within_capacity(self) -> bool {
        self.items@.len() <= self.capacity
    }

    /// The most samples the queue ever holds.
    pub closed spec fn spec_capacity(&self) -> usize {
        self.capacity
    }

    /// What the queue does with samples that do not fit.
    pub closed spec fn spec_policy(&self) -> OverflowPolicy {
        self.policy
    }

    /// An empty queue with the given capacity and overflow policy.
    pub fn new(capacity: usize, policy: OverflowPolicy) -> (q: SampleQueue)
        ensures
            q@ == Seq::<Sample>::empty(),
            q.capacity() == capacity,
            q.policy() == policy,
    {
        SampleQueue { items: VecDeque::new(), capacity, policy }
    }

    /// The most samples the queue ever holds.
    #[verifier::when_used_as_spec(spec_capacity)]
    pub fn capacity(&self) -> (c: usize)
        ensures
            c == self.capacity(),
    {
        self.capacity
    }

    /// What the queue does with samples that do not fit.
    #[verifier::when_used_as_spec(spec_policy)]
    pub fn policy(&self) -> (p: OverflowPolicy)
        ensures
            p == self.policy(),
    {
        self.policy
    }

    /// The number of queued samples; it never exceeds the capacity.
    pub fn len(&self) -> (n: usize)
        ensures
            n == self@.len(),
            n <= self.capacity(),
    {
        proof {
            use_type_invariant(self);
        }
        self.items.len()
    }

    /// Whether nothing is queued.
    pub fn is_empty(&self) -> (b: bool)
        ensures
            b == (self@.len() == 0),
    {
        self.items.len() == 0
    }

    /// How many more samples fit before the queue is full.
    pub fn free_space(&self) -> (n: usize)
        ensures
            n == self.capacity() - self@.len(),
    {
        proof {
            use_type_invariant(self);
        }
        self.capacity - self.items.len()
    }

    /// Appends `samples` at the tail, in order, under the queue's overflow
    /// policy.
    ///
    /// Under `Block` the longest prefix that fits is appended and the rest is
    /// left with the caller; under `DropOldest` everything is appended and the
    /// oldest samples beyond the capacity are discarded.
    pub fn append(&mut self, samples: &[Sample]) -> (done: Appended)
        ensures
            final(self)@ == after_append(
                old(self)@,
                old(self).capacity() as nat,
                old(self).policy(),
                samples@,
            ),
            done.accepted == accepted(
                old(self)@.len(),
                old(self).capacity() as nat,
                old(self).policy(),
                samples@.len(),
            ),
            done.dropped == dropped(
                old(self)@.len(),
                old(self).capacity() as nat,
                old(self).policy(),
                samples@.len(),
            ),
            final(self).capacity() == old(self).capacity(),
            final(self).policy() == old(self).policy(),
    {
        proof {
            use_type_invariant(&*self);
        }
        let ghost before = self.items@;
        let capacity = self.capacity;
        let offered: usize = samples.len();
        let mut items: VecDeque<Sample> = VecDeque::new();
        std::mem::swap(&mut items, &mut self.items);
        let done = match self.policy {
            OverflowPolicy::Block => {
                let free: usize = capacity - items.len();
                let take: usize = if offered <= free { offered } else { free };
                let mut i: usize = 0;
                while i < take
                    invariant
                        i <= take <= offered,
                        offered == samples@.len(),
                        before.len() + take <= capacity,
                        items@ == before + samples@.take(i as int),
                    decreases take - i,
                {
                    items.push_back(samples[i]);
                    i += 1;
                }
                Appended { accepted: take, dropped: 0 }
            },
            OverflowPolicy::DropOldest => {
                let mut shed: usize = 0;
                let mut i: usize = 0;
                while i < offered
                    invariant
                        i <= offered,
                        offered == samples@.len(),
                        before.len() <= capacity,
                        items@ == newest(before + samples@.take(i as int), capacity as nat),
                        shed == dropped(
                            before.len(),
                            capacity as nat,
                            OverflowPolicy::DropOldest,
                            i as nat,
                        ),
                    decreases offered - i,
                {
                    if capacity == 0 {
                        shed += 1;
                    } else {
                        if items.len() == capacity {
                            let _ = items.pop_front();
                            shed += 1;
                        }
                        items.push_back(samples[i]);
                    }
                    i += 1;
                }
                Appended { accepted: offered, dropped: shed }
            },
        };
        self.items = items;
        done
    }

    /// Removes up to `max_count` samples from the head and returns them in
    /// their queued order; anything beyond `max_count` stays queued.
    pub fn drain(&mut self, max_count: usize) -> (out: Vec<Sample>)
        ensures
            out@ == delivered(old(self)@, max_count as nat),
            final(self)@ == leftover(old(self)@, max_count as nat),
            final(self).capacity() == old(self).capacity(),
            final(self).policy() == old(self).policy(),
    {
        proof {
            use_type_invariant(&*self);
        }
        let ghost before = self.items@;
        let mut items: VecDeque<Sample> = VecDeque::new();
        std::mem::swap(&mut items, &mut self.items);
        let count: usize = if items.len() < max_count { items.len() } else { max_count };
        let mut out: Vec<Sample> = Vec::new();
        let mut i: usize = 0;
        while i < count
            invariant
                i <= count <= before.len(),
                out@ == before.take(i as int),
                items@ == before.skip(i as int),
            decreases count - i,
        {
            match items.pop_front() {
                Some(s) => {
                    out.push(s);
                },
                None => {},
            }
            i += 1;
        }
        self.items = items;
        out
    }

    /// Moves up to `out.len()` samples from the head of the queue to the front
    /// of `out`, in order, and returns how many were moved. The rest of `out`
    /// is left as it was.
    pub fn drain_into(&mut self, out: &mut [Sample]) -> (count: usize)
        ensures
            count == delivered(old(self)@, old(out)@.len()).len(),
            final(out)@ == delivered(old(self)@, old(out)@.len()) + old(out)@.skip(count as int),
            final(self)@ == leftover(old(self)@, old(out)@.len()),
            final(self).capacity() == old(self).capacity(),
            final(self).policy() == old(self).policy(),
    {
        proof {
            use_type_invariant(&*self);
        }
        let ghost before = self.items@;
        let want: usize = out.len();
        let mut items: VecDeque<Sample> = VecDeque::new();
        std::mem::swap(&mut items, &mut self.items);
        let count: usize = if items.len() < want { items.len() } else { want };
        let mut i: usize = 0;
        while i < count
            invariant
                i <= count <= before.len(),
                count <= want,
                want == out@.len(),
                out@.len() == old(out)@.len(),
                out@ == before.take(i as int) + old(out)@.skip(i as int),
                items@ == before.skip(i as int),
            decreases count - i,
        {
            match items.pop_front() {
                Some(s) => {
                    out[i] = s;
                },
                None => {},
            }
            i += 1;
        }
        self.items = items;
        count
    }
}

} // verus!
