//! The producer's staging area: raw bytes waiting to be moved into the queue.
//!
//! The bytes from `play_offset` on hold staged samples back to back, four
//! bytes each: the `binary32` bit pattern of the sample, least significant
//! byte first, with no scaling. Bytes before `play_offset` have been consumed
//! already, and a tail of fewer than four bytes holds no sample.

use vstd::prelude::*;
use crate::sample::Sample;

verus! {

/// The size of the staging area in bytes.
pub const SAMPLE_COUNT: usize = 4410 * 2;

/// The number of bytes that encode one sample.
pub const BYTES_PER_SAMPLE: usize = 4;

/// Raw staged audio and the offset up to which it has been consumed.
pub struct OutputBuffer {
    pub samples: [u8; SAMPLE_COUNT],
    pub play_offset: usize,
}

/// The 32-bit pattern whose little-endian encoding is `b0 b1 b2 b3`.
pub open spec fn le_bits(b0: u8, b1: u8, b2: u8, b3: u8) -> u32 {
    (b0 + 256 * b1 + 65536 * b2 + 16777216 * b3) as u32
}

/// The sample encoded by the four bytes of `bytes` that start at `at`.
pub open spec fn sample_at(bytes: Seq<u8>, at: int) -> Sample {
    Sample { bits: le_bits(bytes[at], bytes[at + 1], bytes[at + 2], bytes[at + 3]) }
}

/// How many whole samples `len` bytes hold from `play_offset` on.
pub open spec fn staged_count(len: nat, play_offset: nat) -> nat {
    if play_offset >= len {
        0
    } else {
        (len - play_offset) as nat / 4
    }
}

/// The samples staged in `bytes` from `play_offset` on, in order.
pub open spec fn staged_samples(bytes: Seq<u8>, play_offset: nat) -> Seq<Sample> {
    Seq::new(
        staged_count(bytes.len(), play_offset),
        |i: int| sample_at(bytes, play_offset + 4 * i),
    )
}

impl OutputBuffer {
    /// The samples staged in this buffer and not yet consumed, in order.
    pub open spec fn staged(&self) -> Seq<Sample> {
        staged_samples(self.samples@, self.play_offset as nat)
    }

    /// A buffer of zero bytes with nothing consumed: a run of silent samples.
    pub fn new() -> (buffer: OutputBuffer)
        ensures
            buffer.play_offset == 0,
            forall|i: int| 0 <= i < SAMPLE_COUNT ==> buffer.samples@[i] == 0u8,
    {
        OutputBuffer { samples: [0u8; SAMPLE_COUNT], play_offset: 0 }
    }

    /// The number of staged samples not yet consumed.
    pub fn staged_len(&self) -> (n: usize)
        ensures
            n == self.staged().len(),
    {
        if self.play_offset >= SAMPLE_COUNT {
            0
        } else {
            (SAMPLE_COUNT - self.play_offset) / BYTES_PER_SAMPLE
        }
    }

    /// Decodes up to `max_count` staged samples, oldest first, and marks
    /// their bytes as consumed. The bytes themselves stay as they are.
    pub fn take(&mut self, max_count: usize) -> (out: Vec<Sample>)
        ensures
            out@.len() == if old(self).staged().len() < max_count {
                old(self).staged().len()
            } else {
                max_count as nat
            },
            out@ == old(self).staged().take(out@.len() as int),
            final(self).staged() == old(self).staged().skip(out@.len() as int),
            final(self).samples == old(self).samples,
            final(self).play_offset == old(self).play_offset + 4 * out@.len(),
    {
        let staged: usize = self.staged_len();
        let count: usize = if staged < max_count { staged } else { max_count };
        let start: usize = self.play_offset;
        let mut out: Vec<Sample> = Vec::new();
        let mut i: usize = 0;
        while i < count
            invariant
                i <= count <= staged,
                staged == self.staged().len(),
                start == self.play_offset,
                *self == *old(self),
                out@ == self.staged().take(i as int),
            decreases count - i,
        {
            let at: usize = start + BYTES_PER_SAMPLE * i;
            let b0: u32 = self.samples[at] as u32;
            let b1: u32 = self.samples[at + 1] as u32;
            let b2: u32 = self.samples[at + 2] as u32;
            let b3: u32 = self.samples[at + 3] as u32;
            out.push(Sample::from_bits(b0 + 256 * b1 + 65536 * b2 + 16777216 * b3));
            i += 1;
        }
        self.play_offset = start + BYTES_PER_SAMPLE * count;
        out
    }
}

} // verus!
