//! The frame channel: the hand-off from the decode worker thread to the
//! playback renderer. Sending never blocks the producer; polling never
//! blocks the consumer beyond a negligible timeout.

use crate::frame::Frame;
use std::sync::mpsc::Receiver;
use std::sync::mpsc::RecvTimeoutError;
use std::sync::mpsc::Sender;
use std::time::Duration;
use vstd::prelude::*;

verus! {

/// What the decode worker hands to the playback renderer. A producer that
/// finishes (end of stream) or disappears is reported as `EndOfStream`
/// rather than treated as a fault.
pub enum LoaderPlaybackMessage {
    /// One decoded frame, ready for upload.
    NewFrame { frame: Frame },
    /// No further frames will ever arrive.
    EndOfStream,
}

/// Declares std's `mpsc::Sender` so it can stand in a field; its values are
/// opaque here and only touched inside the wrappers below.
#[verifier::external_type_specification]
#[verifier::external_body]
#[verifier::reject_recursive_types(T)]
pub struct ExSender<T>(Sender<T>);

/// Declares std's `mpsc::Receiver`; as with the sender, only the wrappers
/// below touch its values.
#[verifier::external_type_specification]
#[verifier::external_body]
#[verifier::reject_recursive_types(T)]
pub struct ExReceiver<T>(Receiver<T>);

/// The producer end of the frame channel, owned by the decode worker.
pub struct FrameSender {
    tx: Sender<LoaderPlaybackMessage>,
}

/// The consumer end of the frame channel, owned by the playback renderer
/// and polled once per render tick.
pub struct LoaderPlaybackHandle {
    rx: Receiver<LoaderPlaybackMessage>,
}

/// Relies on std's `mpsc::channel`: the two ends of one unbounded
/// first-in-first-out channel.
#[verifier::external_body]
pub fn frame_channel() -> (ends: (FrameSender, LoaderPlaybackHandle)) {
    let (tx, rx) = std::sync::mpsc::channel();
    (FrameSender { tx }, LoaderPlaybackHandle { rx })
}

impl FrameSender {
    /// Relies on std's `Sender::send`, which enqueues without ever blocking
    /// the producer. Returns whether the consumer end was still alive; on
    /// `false` the worker's output is no longer needed and it should stop.
    #[verifier::external_body]
    pub fn send(&self, message: LoaderPlaybackMessage) -> (delivered: bool) {
        self.tx.send(message).is_ok()
    }
}

impl LoaderPlaybackHandle {
    /// Relies on std's `Receiver::recv_timeout` with a one-nanosecond
    /// timeout: returns a pending message if one is already queued and
    /// `None` otherwise, never waiting for the producer to make progress.
    /// A disconnected producer is reported as `EndOfStream`.
    #[verifier::external_body]
    pub fn next_message(&mut self) -> (m: Option<LoaderPlaybackMessage>) {
        match self.rx.recv_timeout(Duration::from_nanos(1)) {
            Ok(message) => Some(message),
            Err(RecvTimeoutError::Timeout) => None,
            Err(RecvTimeoutError::Disconnected) => Some(LoaderPlaybackMessage::EndOfStream),
        }
    }
}

} // verus!
