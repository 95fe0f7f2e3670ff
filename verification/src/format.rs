//! The output format agreed with the audio backend when the device is opened.

use vstd::prelude::*;

verus! {

/// The sample rate the device is opened with, in frames per second.
pub const SAMPLE_RATE: i32 = 44100;

/// The number of channels the device is opened with: mono.
pub const CHANNEL_COUNT: u8 = 1;

/// The number of frames the backend asks for on every pull: a tenth of a
/// second at `SAMPLE_RATE`.
pub const BLOCK_SIZE: u16 = 4410;

/// The format the backend granted. It is fixed when the device is opened and
/// never changes afterwards.
#[derive(Clone, Copy, Debug, PartialEq, Eq, Structural)]
pub struct NegotiatedFormat {
    /// Frames per second.
    pub sample_rate: i32,
    /// Interleaved channels per frame.
    pub channel_count: u8,
    /// Frames per pull.
    pub block_size: u16,
}

impl NegotiatedFormat {
    /// The one format this library plays: 44100 Hz, mono, 4410 frames a block.
    pub open spec fn spec_desired() -> NegotiatedFormat {
        NegotiatedFormat {
            sample_rate: SAMPLE_RATE,
            channel_count: CHANNEL_COUNT,
            block_size: BLOCK_SIZE,
        }
    }

    /// The format to ask the backend for.
    #[verifier::when_used_as_spec(spec_desired)]
    pub fn desired() -> (f: NegotiatedFormat)
        ensures
            f == NegotiatedFormat::desired(),
    {
        NegotiatedFormat {
            sample_rate: SAMPLE_RATE,
            channel_count: CHANNEL_COUNT,
            block_size: BLOCK_SIZE,
        }
    }

    /// Whether this is the format the library plays.
    pub open spec fn spec_is_supported(&self) -> bool {
        *self == NegotiatedFormat::desired()
    }

    /// Whether the granted format is the one that was asked for.
    #[verifier::when_used_as_spec(spec_is_supported)]
    pub fn is_supported(&self) -> (b: bool)
        ensures
            b == self.is_supported(),
    {
        self.sample_rate == SAMPLE_RATE && self.channel_count == CHANNEL_COUNT && self.block_size
            == BLOCK_SIZE
    }
}

} // verus!
