//! Sample delivery between an emulated sound unit and a pull-based audio device.
//!
//! The producer appends samples to a bounded FIFO queue at its own pace; the
//! audio device pulls fixed-size blocks on its own clock. Every pull yields a
//! complete block: queued samples first, in order, then silence for whatever
//! the queue could not provide.

pub mod buffer;
pub mod callback;
pub mod device;
pub mod fifo;
pub mod format;
pub mod queue;
pub mod sample;

pub use buffer::OutputBuffer;
pub use callback::{CallbackView, NesAudioCallback, PullState};
pub use device::{
    close, flush, lock, open, pull, push, BackendReply, DeviceClosed, DeviceHandle, OpenError,
};
pub use fifo::OverflowPolicy;
pub use format::NegotiatedFormat;
pub use queue::{Appended, SampleQueue};
pub use sample::Sample;
