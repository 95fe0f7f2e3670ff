//! The sample type carried through the queue.

use vstd::prelude::*;

verus! {

/// One mono output sample, held as the bit pattern of an IEEE-754 `binary32`
/// amplitude. The library moves samples around and never does arithmetic on
/// them, so the bit pattern is all it needs.
#[derive(Clone, Copy, Debug, PartialEq, Eq, Structural)]
pub struct Sample {
    pub bits: u32,
}

impl Sample {
    /// The silent sample: the bit pattern of `+0.0`.
    pub open spec fn spec_silence() -> Sample {
        Sample { bits: 0 }
    }

    /// The silent sample.
    #[verifier::when_used_as_spec(spec_silence)]
    pub fn silence() -> (s: Sample)
        ensures
            s == Sample::spec_silence(),
    {
        Sample { bits: 0 }
    }

    /// Wraps a `binary32` bit pattern.
    pub fn from_bits(bits: u32) -> (s: Sample)
        ensures
            s == (Sample { bits }),
    {
        Sample { bits }
    }

    /// The `binary32` bit pattern of this sample.
    pub fn to_bits(self) -> (bits: u32)
        ensures
            bits == self.bits,
    {
        self.bits
    }
}

} // verus!
