use nes_audio::{Appended, NegotiatedFormat, NesAudioCallback, OverflowPolicy, PullState, Sample};

fn run(from: u32, count: u32) -> Vec<Sample> {
    (from..from + count).map(Sample::from_bits).collect()
}

fn fresh(capacity: usize, policy: OverflowPolicy) -> NesAudioCallback {
    NesAudioCallback::new(NegotiatedFormat::desired(), capacity, policy)
}

#[test]
fn new_callback_starts_empty_and_uncounted() {
    let cb = fresh(16, OverflowPolicy::DropOldest);
    assert_eq!(cb.len(), 0);
    assert_eq!(cb.capacity(), 16);
    assert_eq!(cb.free_space(), 16);
    assert_eq!(cb.policy(), OverflowPolicy::DropOldest);
    assert_eq!(cb.underruns(), 0);
    assert_eq!(cb.format(), NegotiatedFormat::desired());
    assert_eq!(cb.format().sample_rate, 44100);
    assert_eq!(cb.format().channel_count, 1);
    assert_eq!(cb.format().block_size, 4410);
}

#[test]
fn silence_is_positive_zero() {
    assert_eq!(Sample::silence().to_bits(), 0);
    assert_eq!(f32::from_bits(Sample::silence().to_bits()), 0.0);
    assert!(f32::from_bits(Sample::silence().to_bits()).is_sign_positive());
    assert_eq!(Sample::from_bits(0x3f80_0000).to_bits(), 1.0f32.to_bits());
}

#[test]
fn padded_blocks_are_counted_and_full_ones_are_not() {
    let mut cb = fresh(16, OverflowPolicy::Block);
    cb.push(&run(1, 6));
    let mut out = vec![Sample::from_bits(77); 4];
    cb.callback(&mut out);
    assert_eq!(out, run(1, 4));
    assert_eq!(cb.underruns(), 0);
    cb.callback(&mut out);
    assert_eq!(
        out,
        vec![
            Sample::from_bits(5),
            Sample::from_bits(6),
            Sample::silence(),
            Sample::silence()
        ]
    );
    assert_eq!(cb.underruns(), 1);
    cb.callback(&mut out);
    assert_eq!(out, vec![Sample::silence(); 4]);
    assert_eq!(cb.underruns(), 2);
}

#[test]
fn exactly_one_block_queued_is_no_underrun() {
    let mut cb = fresh(16, OverflowPolicy::Block);
    cb.push(&run(1, 4));
    let mut out = vec![Sample::silence(); 4];
    cb.callback(&mut out);
    assert_eq!(out, run(1, 4));
    assert_eq!(cb.len(), 0);
    assert_eq!(cb.underruns(), 0);
}

#[test]
fn empty_block_takes_nothing_and_counts_nothing() {
    let mut cb = fresh(16, OverflowPolicy::Block);
    cb.push(&run(1, 2));
    let mut out: Vec<Sample> = Vec::new();
    cb.callback(&mut out);
    assert_eq!(cb.len(), 2);
    assert_eq!(cb.underruns(), 0);
    let mut idle = fresh(16, OverflowPolicy::Block);
    idle.callback(&mut out);
    assert_eq!(idle.underruns(), 0);
}

#[test]
fn pull_state_follows_occupancy() {
    let mut cb = fresh(16, OverflowPolicy::Block);
    assert_eq!(cb.pull_state(4), PullState::Idle);
    assert_eq!(cb.pull_state(0), PullState::Idle);
    cb.push(&run(1, 6));
    assert_eq!(cb.pull_state(4), PullState::Streaming);
    assert_eq!(cb.pull_state(6), PullState::Streaming);
    assert_eq!(cb.pull_state(7), PullState::Underrun);
    assert_eq!(cb.pull_state(0), PullState::Streaming);
    let mut out = vec![Sample::silence(); 4];
    cb.callback(&mut out);
    assert_eq!(cb.pull_state(4), PullState::Underrun);
    cb.callback(&mut out);
    assert_eq!(cb.pull_state(4), PullState::Idle);
}

#[test]
fn push_reports_what_the_queue_did() {
    let mut blocking = fresh(4, OverflowPolicy::Block);
    assert_eq!(blocking.push(&run(1, 6)), Appended { accepted: 4, dropped: 0 });
    assert_eq!(blocking.free_space(), 0);
    let mut dropping = fresh(4, OverflowPolicy::DropOldest);
    assert_eq!(dropping.push(&run(1, 6)), Appended { accepted: 6, dropped: 2 });
    let mut out = vec![Sample::silence(); 4];
    dropping.callback(&mut out);
    assert_eq!(out, run(3, 4));
    blocking.callback(&mut out);
    assert_eq!(out, run(1, 4));
    assert_eq!(blocking.free_space(), 4);
}

#[test]
fn push_and_callback_leave_the_format_alone() {
    let mut cb = fresh(4, OverflowPolicy::DropOldest);
    cb.push(&run(1, 9));
    let mut out = vec![Sample::silence(); 9];
    cb.callback(&mut out);
    assert_eq!(cb.format(), NegotiatedFormat::desired());
    assert_eq!(cb.capacity(), 4);
    assert_eq!(cb.policy(), OverflowPolicy::DropOldest);
}
