//! The mathematical model of the sample queue: what a pull delivers, what it
//! leaves behind, and what an append does under each overflow policy.
//!
//! Everything here is stated over `Seq<Sample>`; the executable queue and the
//! drain callback are specified against these functions.

use vstd::prelude::*;
use crate::sample::Sample;

verus! {

/// What happens to samples that do not fit in the queue.
#[derive(Clone, Copy, Debug, PartialEq, Eq, Structural)]
pub enum OverflowPolicy {
    /// Nothing already queued or offered is ever discarded: an append takes
    /// the longest prefix of the offered samples that fits and reports how
    /// many it took, so that the producer can hold the rest back until a pull
    /// has made room.
    Block,
    /// An append always takes every offered sample and discards the oldest
    /// samples beyond the capacity.
    DropOldest,
}

/// `n` silent samples.
pub open spec fn silence(n: nat) -> Seq<Sample> {
    Seq::new(n, |i: int| Sample::silence())
}

/// The block that a pull of `want` samples produces from the queue content
/// `pending`: on underrun everything pending followed by silence, otherwise
/// the first `want` pending samples.
pub open spec fn block(pending: Seq<Sample>, want: nat) -> Seq<Sample> {
    if pending.len() < want {
        pending + silence((want - pending.len()) as nat)
    } else {
        pending.take(want as int)
    }
}

/// The queue content that a pull of `want` samples leaves behind.
pub open spec fn leftover(pending: Seq<Sample>, want: nat) -> Seq<Sample> {
    if pending.len() < want {
        Seq::empty()
    } else {
        pending.skip(want as int)
    }
}

/// The samples that a pull of `want` samples removes from the queue: the part
/// of the block that is not padding.
pub open spec fn delivered(pending: Seq<Sample>, want: nat) -> Seq<Sample> {
    if pending.len() < want {
        pending
    } else {
        pending.take(want as int)
    }
}

/// The last `capacity` elements of `s`, or all of `s` if it is shorter.
pub open spec fn newest(s: Seq<Sample>, capacity: nat) -> Seq<Sample> {
    if s.len() <= capacity {
        s
    } else {
        s.skip(s.len() - capacity)
    }
}

/// How many of `offered` samples fit behind `pending` in a queue of the given
/// capacity.
pub open spec fn room(pending: nat, capacity: nat, offered: nat) -> nat {
    if pending >= capacity {
        0
    } else if offered <= capacity - pending {
        offered
    } else {
        (capacity - pending) as nat
    }
}

/// The queue content after `offered` is appended to `pending`.
pub open spec fn after_append(
    pending: Seq<Sample>,
    capacity: nat,
    policy: OverflowPolicy,
    offered: Seq<Sample>,
) -> Seq<Sample> {
    match policy {
        OverflowPolicy::Block => pending + offered.take(
            room(pending.len(), capacity, offered.len()) as int,
        ),
        OverflowPolicy::DropOldest => newest(pending + offered, capacity),
    }
}

/// How many of the offered samples an append takes in.
pub open spec fn accepted(
    pending: nat,
    capacity: nat,
    policy: OverflowPolicy,
    offered: nat,
) -> nat {
    match policy {
        OverflowPolicy::Block => room(pending, capacity, offered),
        OverflowPolicy::DropOldest => offered,
    }
}

/// How many samples an append discards, counting queued and offered ones alike.
pub open spec fn dropped(
    pending: nat,
    capacity: nat,
    policy: OverflowPolicy,
    offered: nat,
) -> nat {
    match policy {
        OverflowPolicy::Block => 0,
        OverflowPolicy::DropOldest => if pending + offered <= capacity {
            0
        } else {
            (pending + offered - capacity) as nat
        },
    }
}

/// Everything that a run of pulls of the sizes `pulls`, one after another and
/// with no append in between, removes from the queue content `pending`,
/// concatenated in the order of the pulls.
pub open spec fn deliveries(pending: Seq<Sample>, pulls: Seq<nat>) -> Seq<Sample>
    decreases pulls.len(),
{
    if pulls.len() == 0 {
        Seq::empty()
    } else {
        delivered(pending, pulls[0]) + deliveries(leftover(pending, pulls[0]), pulls.skip(1))
    }
}

/// The queue content that the same run of pulls leaves behind.
pub open spec fn after_pulls(pending: Seq<Sample>, pulls: Seq<nat>) -> Seq<Sample>
    decreases pulls.len(),
{
    if pulls.len() == 0 {
        pending
    } else {
        after_pulls(leftover(pending, pulls[0]), pulls.skip(1))
    }
}

/// A pull always fills its block exactly, and the block is what the pull
/// removed from the queue followed by nothing but silence.
pub proof fn block_is_delivery_then_silence(pending: Seq<Sample>, want: nat)
    ensures
        block(pending, want).len() == want,
        delivered(pending, want).len() <= want,
        block(pending, want) == delivered(pending, want) + silence(
            (want - delivered(pending, want).len()) as nat,
        ),
{
}

/// A pull splits the queue in two without reordering, losing or repeating
/// anything: what it removed, followed by what it left, is the queue as it
/// was. Where the queue holds a full block, the block itself is what was
/// removed.
pub proof fn pull_splits_queue(pending: Seq<Sample>, want: nat)
    ensures
        delivered(pending, want) + leftover(pending, want) == pending,
        pending.len() >= want ==> block(pending, want) + leftover(pending, want) == pending,
{
}

/// A pull from an empty queue yields a block of pure silence and leaves the
/// queue empty.
pub proof fn empty_queue_yields_silence(want: nat)
    ensures
        block(Seq::empty(), want) == silence(want),
        leftover(Seq::empty(), want) == Seq::<Sample>::empty(),
{
}

/// First in, first out, nothing lost: after any run of pulls, what the pulls
/// removed, in the order they removed it, followed by what is still queued,
/// is the queue content the run started from.
pub proof fn pulls_conserve_queue(pending: Seq<Sample>, pulls: Seq<nat>)
    ensures
        deliveries(pending, pulls) + after_pulls(pending, pulls) == pending,
    decreases pulls.len(),
{
    if pulls.len() > 0 {
        pull_splits_queue(pending, pulls[0]);
        pulls_conserve_queue(leftover(pending, pulls[0]), pulls.skip(1));
    }
}

/// Once a run of pulls has drained the queue, the pulls together have
/// delivered the queue content the run started from: every sample exactly
/// once, in the order in which it was queued.
pub proof fn drained_queue_was_delivered_in_order(pending: Seq<Sample>, pulls: Seq<nat>)
    requires
        after_pulls(pending, pulls).len() == 0,
    ensures
        deliveries(pending, pulls) == pending,
{
    pulls_conserve_queue(pending, pulls);
}

/// A queue does get drained: as many pulls as there are samples queued, each
/// asking for at least one sample, leave nothing behind.
pub proof fn enough_pulls_drain_queue(pending: Seq<Sample>, pulls: Seq<nat>)
    requires
        pulls.len() >= pending.len(),
        forall|i: int| 0 <= i < pulls.len() ==> pulls[i] >= 1,
    ensures
        after_pulls(pending, pulls).len() == 0,
    decreases pulls.len(),
{
    if pulls.len() > 0 {
        enough_pulls_drain_queue(leftover(pending, pulls[0]), pulls.skip(1));
    }
}

/// An append never leaves more queued than the capacity allows, and it
/// accounts for every sample: what was queued plus what was taken in is what
/// is queued afterwards plus what was discarded.
pub proof fn append_stays_within_capacity(
    pending: Seq<Sample>,
    capacity: nat,
    policy: OverflowPolicy,
    offered: Seq<Sample>,
)
    requires
        pending.len() <= capacity,
    ensures
        after_append(pending, capacity, policy, offered).len() <= capacity,
        accepted(pending.len(), capacity, policy, offered.len()) <= offered.len(),
        pending.len() + accepted(pending.len(), capacity, policy, offered.len())
            == after_append(pending, capacity, policy, offered).len() + dropped(
            pending.len(),
            capacity,
            policy,
            offered.len(),
        ),
{
}

/// Under the `Block` policy an append keeps everything that was queued, in
/// place, and adds offered samples only behind it; when the offered samples
/// all fit, either policy simply appends them.
pub proof fn append_extends_queue(
    pending: Seq<Sample>,
    capacity: nat,
    policy: OverflowPolicy,
    offered: Seq<Sample>,
)
    requires
        pending.len() <= capacity,
    ensures
        policy == OverflowPolicy::Block ==> after_append(
            pending,
            capacity,
            policy,
            offered,
        ).take(pending.len() as int) == pending,
        pending.len() + offered.len() <= capacity ==> after_append(
            pending,
            capacity,
            policy,
            offered,
        ) == pending + offered,
{
}

} // verus!
