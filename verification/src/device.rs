//! The life of the output device: opened once, used through its handle, closed.

use vstd::prelude::*;
use crate::buffer::OutputBuffer;
use crate::callback::{pad_with_silence, underruns_after, CallbackView, NesAudioCallback};
use crate::fifo::{accepted, after_append, block, dropped, leftover, silence, OverflowPolicy};
use crate::format::NegotiatedFormat;
use crate::queue::Appended;
use crate::sample::Sample;

verus! {

/// What the audio backend answered when it was asked to open a playback
/// device.
#[derive(Clone, Copy, Debug, PartialEq, Eq, Structural)]
pub enum BackendReply {
    /// The audio subsystem could not be brought up.
    NoAudioSubsystem,
    /// The subsystem is up, but it has no playback device to offer.
    NoPlaybackDevice,
    /// A device was opened and plays in this format.
    Granted(NegotiatedFormat),
}

/// Why opening the device failed.
#[derive(Clone, Copy, Debug, PartialEq, Eq, Structural)]
pub enum OpenError {
    /// The audio subsystem could not be brought up.
    NoAudioSubsystem,
    /// The subsystem is up, but it has no playback device to offer.
    NoPlaybackDevice,
    /// The device plays in a format other than the one asked for.
    UnsupportedFormat,
}

/// The device behind the handle has been closed, or was never opened.
#[derive(Clone, Copy, Debug, PartialEq, Eq, Structural)]
pub struct DeviceClosed;

/// The producer's hold on the device. It is open from a successful `open`
/// until the first `close` and closed ever after.
pub struct DeviceHandle {
    callback: Option<NesAudioCallback>,
}

impl View for DeviceHandle {
    type V = Option<CallbackView>;

    /// The state of the callback while the device is open, `None` once it is
    /// closed.
    closed spec fn view(&self) -> Option<CallbackView> {
        match self.callback {
            Some(cb) => Some(cb@),
            None => None,
        }
    }
}

impl DeviceHandle {
    /// A handle to no device: one that was never opened.
    pub fn closed() -> (handle: DeviceHandle)
        ensures
            handle@ is None,
    {
        DeviceHandle { callback: None }
    }

    /// Whether the device is open.
    pub fn is_open(&self) -> (b: bool)
        ensures
            b == (self@ is Some),
    {
        self.callback.is_some()
    }
}

/// What `open` makes of the backend's reply: the initial state of the device,
/// or the reason there is none.
pub open spec fn open_outcome(
    reply: BackendReply,
    capacity: usize,
    policy: OverflowPolicy,
) -> Result<CallbackView, OpenError> {
    match reply {
        BackendReply::NoAudioSubsystem => Err(OpenError::NoAudioSubsystem),
        BackendReply::NoPlaybackDevice => Err(OpenError::NoPlaybackDevice),
        BackendReply::Granted(format) => if format.is_supported() {
            Ok(
                CallbackView {
                    pending: Seq::empty(),
                    capacity,
                    policy,
                    format,
                    underruns: 0,
                },
            )
        } else {
            Err(OpenError::UnsupportedFormat)
        },
    }
}

/// The state of a handle after `close`, whatever it was before.
pub open spec fn after_close(state: Option<CallbackView>) -> Option<CallbackView> {
    None
}

/// Closing twice is closing once: a second `close` finds the handle closed
/// and leaves it exactly as the first one did.
pub proof fn close_is_idempotent(state: Option<CallbackView>)
    ensures
        after_close(state) is None,
        after_close(after_close(state)) == after_close(state),
{
}

/// Turns the backend's reply into an open device with an empty queue of the
/// given capacity and overflow policy, or into the error that says why there
/// is no device.
pub fn open(reply: BackendReply, capacity: usize, policy: OverflowPolicy) -> (r: Result<
    DeviceHandle,
    OpenError,
>)
    ensures
        match open_outcome(reply, capacity, policy) {
            Ok(state) => r matches Ok(handle) && handle@ == Some(state),
            Err(why) => r matches Err(e) && e == why,
        },
{
    match reply {
        BackendReply::NoAudioSubsystem => Err(OpenError::NoAudioSubsystem),
        BackendReply::NoPlaybackDevice => Err(OpenError::NoPlaybackDevice),
        BackendReply::Granted(format) => {
            if format.is_supported() {
                Ok(DeviceHandle { callback: Some(NesAudioCallback::new(format, capacity, policy)) })
            } else {
                Err(OpenError::UnsupportedFormat)
            }
        },
    }
}

/// Closes the device and releases its queue. Closing a handle that is already
/// closed changes nothing.
pub fn close(handle: &mut DeviceHandle)
    ensures
        final(handle)@ == after_close(old(handle)@),
        old(handle)@ is None ==> *final(handle) == *old(handle),
{
    handle.callback = None;
}

/// Grants exclusive access to the callback and its queue for as long as the
/// returned borrow lives, or reports that the device is closed.
pub fn lock(handle: &mut DeviceHandle) -> (r: Result<&mut NesAudioCallback, DeviceClosed>)
    ensures
        match r {
            Ok(cb) => old(handle)@ == Some(cb@) && final(handle)@ == Some(final(cb)@),
            Err(_) => old(handle)@ is None && *final(handle) == *old(handle),
        },
{
    match &mut handle.callback {
        Some(cb) => Ok(cb),
        None => Err(DeviceClosed),
    }
}

/// Appends `samples` to the queue of an open device under its overflow
/// policy, or reports that the device is closed.
pub fn push(handle: &mut DeviceHandle, samples: &[Sample]) -> (r: Result<Appended, DeviceClosed>)
    ensures
        match old(handle)@ {
            Some(state) => {
                &&& final(handle)@ == Some(
                    CallbackView {
                        pending: after_append(
                            state.pending,
                            state.capacity as nat,
                            state.policy,
                            samples@,
                        ),
                        ..state
                    },
                )
                &&& r matches Ok(done)
                &&& done.accepted == accepted(
                    state.pending.len(),
                    state.capacity as nat,
                    state.policy,
                    samples@.len(),
                )
                &&& done.dropped == dropped(
                    state.pending.len(),
                    state.capacity as nat,
                    state.policy,
                    samples@.len(),
                )
            },
            None => r is Err && *final(handle) == *old(handle),
        },
{
    match lock(handle) {
        Ok(cb) => Ok(cb.push(samples)),
        Err(closed) => Err(closed),
    }
}

/// Fills `out` completely on behalf of the audio backend. An open device
/// delivers what its callback delivers; a closed one delivers silence and
/// says so.
pub fn pull(handle: &mut DeviceHandle, out: &mut [Sample]) -> (r: Result<(), DeviceClosed>)
    ensures
        match old(handle)@ {
            Some(state) => {
                &&& r is Ok
                &&& final(out)@ == block(state.pending, old(out)@.len())
                &&& final(handle)@ == Some(
                    CallbackView {
                        pending: leftover(state.pending, old(out)@.len()),
                        underruns: underruns_after(
                            state.underruns,
                            state.pending.len(),
                            old(out)@.len(),
                        ),
                        ..state
                    },
                )
            },
            None => {
                &&& r is Err
                &&& final(out)@ == silence(old(out)@.len())
                &&& *final(handle) == *old(handle)
            },
        },
{
    match lock(handle) {
        Ok(cb) => {
            cb.callback(out);
            Ok(())
        },
        Err(closed) => {
            pad_with_silence(out, 0);
            Err(closed)
        },
    }
}

/// Moves the samples staged in `buffer` into the queue of an open device and
/// marks the ones the queue took in as consumed. Under the `Block` policy
/// whatever does not fit stays staged.
pub fn flush(handle: &mut DeviceHandle, buffer: &mut OutputBuffer) -> (r: Result<
    Appended,
    DeviceClosed,
>)
    ensures
        final(buffer).samples == old(buffer).samples,
        match old(handle)@ {
            Some(state) => {
                &&& final(handle)@ == Some(
                    CallbackView {
                        pending: after_append(
                            state.pending,
                            state.capacity as nat,
                            state.policy,
                            old(buffer).staged(),
                        ),
                        ..state
                    },
                )
                &&& r matches Ok(done)
                &&& done.accepted == accepted(
                    state.pending.len(),
                    state.capacity as nat,
                    state.policy,
                    old(buffer).staged().len(),
                )
                &&& done.dropped == dropped(
                    state.pending.len(),
                    state.capacity as nat,
                    state.policy,
                    old(buffer).staged().len(),
                )
                &&& final(buffer).staged() == old(buffer).staged().skip(done.accepted as int)
                &&& final(buffer).play_offset == old(buffer).play_offset + 4 * done.accepted
            },
            None => r is Err && *final(handle) == *old(handle) && *final(buffer) == *old(buffer),
        },
{
    match lock(handle) {
        Ok(cb) => {
            let limit: usize = match cb.policy() {
                OverflowPolicy::Block => cb.free_space(),
                OverflowPolicy::DropOldest => buffer.staged_len(),
            };
            let ghost all = buffer.staged();
            let staged = buffer.take(limit);
            proof {
                assert(staged@.take(staged@.len() as int) =~= staged@);
                assert(all.take(all.len() as int) =~= all);
            }
            Ok(cb.push(staged.as_slice()))
        },
        Err(closed) => Err(closed),
    }
}

} // verus!
