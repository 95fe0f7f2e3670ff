use nes_audio::{Appended, OverflowPolicy, Sample, SampleQueue};

fn run(from: u32, count: u32) -> Vec<Sample> {
    (from..from + count).map(Sample::from_bits).collect()
}

#[test]
fn new_queue_is_empty() {
    let q = SampleQueue::new(7, OverflowPolicy::DropOldest);
    assert_eq!(q.len(), 0);
    assert!(q.is_empty());
    assert_eq!(q.capacity(), 7);
    assert_eq!(q.free_space(), 7);
    assert_eq!(q.policy(), OverflowPolicy::DropOldest);
}

#[test]
fn append_that_fits_is_taken_whole() {
    for policy in [OverflowPolicy::Block, OverflowPolicy::DropOldest] {
        let mut q = SampleQueue::new(5, policy);
        assert_eq!(q.append(&run(1, 3)), Appended { accepted: 3, dropped: 0 });
        assert_eq!(q.append(&run(4, 2)), Appended { accepted: 2, dropped: 0 });
        assert_eq!(q.len(), 5);
        assert_eq!(q.free_space(), 0);
        assert!(!q.is_empty());
        assert_eq!(q.drain(5), run(1, 5));
    }
}

#[test]
fn blocking_queue_takes_only_the_prefix_that_fits() {
    let mut q = SampleQueue::new(4, OverflowPolicy::Block);
    assert_eq!(q.append(&run(1, 3)), Appended { accepted: 3, dropped: 0 });
    assert_eq!(q.append(&run(10, 3)), Appended { accepted: 1, dropped: 0 });
    assert_eq!(q.append(&run(20, 2)), Appended { accepted: 0, dropped: 0 });
    assert_eq!(q.len(), 4);
    assert_eq!(
        q.drain(4),
        vec![
            Sample::from_bits(1),
            Sample::from_bits(2),
            Sample::from_bits(3),
            Sample::from_bits(10)
        ]
    );
}

#[test]
fn blocking_queue_takes_the_rest_after_a_drain() {
    let mut q = SampleQueue::new(3, OverflowPolicy::Block);
    let offered = run(1, 5);
    let first = q.append(&offered);
    assert_eq!(first.accepted, 3);
    assert_eq!(q.drain(2), run(1, 2));
    let second = q.append(&offered[first.accepted..]);
    assert_eq!(second, Appended { accepted: 2, dropped: 0 });
    assert_eq!(q.drain(10), run(3, 3));
}

#[test]
fn dropping_queue_sheds_its_oldest_samples() {
    let mut q = SampleQueue::new(4, OverflowPolicy::DropOldest);
    assert_eq!(q.append(&run(1, 3)), Appended { accepted: 3, dropped: 0 });
    assert_eq!(q.append(&run(4, 3)), Appended { accepted: 3, dropped: 2 });
    assert_eq!(q.len(), 4);
    assert_eq!(q.drain(4), run(3, 4));
}

#[test]
fn dropping_queue_keeps_the_newest_of_an_oversized_append() {
    let mut q = SampleQueue::new(3, OverflowPolicy::DropOldest);
    q.append(&run(100, 2));
    assert_eq!(q.append(&run(1, 8)), Appended { accepted: 8, dropped: 7 });
    assert_eq!(q.drain(3), run(6, 3));
}

#[test]
fn queue_without_capacity_holds_nothing() {
    let mut blocking = SampleQueue::new(0, OverflowPolicy::Block);
    assert_eq!(blocking.append(&run(1, 3)), Appended { accepted: 0, dropped: 0 });
    assert!(blocking.is_empty());
    let mut dropping = SampleQueue::new(0, OverflowPolicy::DropOldest);
    assert_eq!(dropping.append(&run(1, 3)), Appended { accepted: 3, dropped: 3 });
    assert!(dropping.is_empty());
    assert_eq!(dropping.drain(3), Vec::new());
}

#[test]
fn empty_append_changes_nothing() {
    let mut q = SampleQueue::new(2, OverflowPolicy::DropOldest);
    q.append(&run(1, 2));
    assert_eq!(q.append(&[]), Appended { accepted: 0, dropped: 0 });
    assert_eq!(q.drain(2), run(1, 2));
}

#[test]
fn drain_returns_at_most_what_is_asked_for() {
    let mut q = SampleQueue::new(9, OverflowPolicy::Block);
    q.append(&run(1, 9));
    assert_eq!(q.drain(4), run(1, 4));
    assert_eq!(q.len(), 5);
    assert_eq!(q.drain(0), Vec::new());
    assert_eq!(q.len(), 5);
    assert_eq!(q.drain(5), run(5, 5));
    assert!(q.is_empty());
}

#[test]
fn drain_returns_at_most_what_is_queued() {
    let mut q = SampleQueue::new(9, OverflowPolicy::Block);
    q.append(&run(1, 3));
    assert_eq!(q.drain(5), run(1, 3));
    assert!(q.is_empty());
    assert_eq!(q.drain(5), Vec::new());
    assert_eq!(q.capacity(), 9);
    assert_eq!(q.policy(), OverflowPolicy::Block);
}

#[test]
fn drain_into_leaves_the_unfilled_tail_alone() {
    let mut q = SampleQueue::new(9, OverflowPolicy::Block);
    q.append(&run(1, 2));
    let mut out = run(50, 4);
    assert_eq!(q.drain_into(&mut out), 2);
    assert_eq!(
        out,
        vec![
            Sample::from_bits(1),
            Sample::from_bits(2),
            Sample::from_bits(52),
            Sample::from_bits(53)
        ]
    );
    assert!(q.is_empty());
}

#[test]
fn drain_into_fills_a_short_block_and_keeps_the_rest() {
    let mut q = SampleQueue::new(9, OverflowPolicy::Block);
    q.append(&run(1, 5));
    let mut out = run(50, 3);
    assert_eq!(q.drain_into(&mut out), 3);
    assert_eq!(out, run(1, 3));
    assert_eq!(q.len(), 2);
    let mut none: Vec<Sample> = Vec::new();
    assert_eq!(q.drain_into(&mut none), 0);
    assert_eq!(q.drain(2), run(4, 2));
}

#[test]
fn appends_and_drains_interleave_in_fifo_order() {
    let mut q = SampleQueue::new(4, OverflowPolicy::DropOldest);
    let mut heard = Vec::new();
    q.append(&run(1, 3));
    heard.extend(q.drain(2));
    q.append(&run(4, 2));
    heard.extend(q.drain(1));
    q.append(&run(6, 1));
    heard.extend(q.drain(9));
    assert_eq!(heard, run(1, 6));
}
