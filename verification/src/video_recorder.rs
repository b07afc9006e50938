//! The screen-side video recorder: a start/stop front end that drives an
//! external capture backend over a signal channel.
//!
//! The backend — a worker that spawns and kills the capture process — lives
//! outside the library and hangs up when it dies.  The front end here owns
//! the recording flag and the rule that a session is started or ended only
//! once: a `Start` is sent only when idle, an `End` only when recording, and
//! the flag flips only when the backend accepted the signal.

use vstd::prelude::*;

verus! {

/// A signal to the capture backend: start writing to the named path, or stop.
#[derive(Debug, Clone, PartialEq, Eq)]
pub enum VideoRecorderSignal {
    Start(String),
    End,
}

#[verifier::external_type_specification]
#[verifier::external_body]
#[verifier::reject_recursive_types(T)]
pub struct ExSender<T>(std::sync::mpsc::Sender<T>);

/// Relies on `std::sync::mpsc::Sender::send`: the signal is queued for the
/// backend and the call reports whether the backend was still connected.
/// Which outcome occurs depends on the backend's state, so nothing is
/// promised of it; callers handle both.
#[verifier::external_body]
fn send_signal(tx: &std::sync::mpsc::Sender<VideoRecorderSignal>, signal: VideoRecorderSignal) -> (ok:
    bool) {
    tx.send(signal).is_ok()
}

/// The front end of the video recorder.
pub struct VideoRecorder {
    is_recording: bool,
    tx: std::sync::mpsc::Sender<VideoRecorderSignal>,
}

impl VideoRecorder {
    /// Whether a capture session is currently running.
    pub closed spec fn recording(&self) -> bool {
        self.is_recording
    }

    /// Wrap the sending half of the backend's signal channel.  The capture
    /// worker holding the other half is spawned by the application.
    pub fn new(tx: std::sync::mpsc::Sender<VideoRecorderSignal>) -> (r: VideoRecorder)
        ensures
            !r.recording(),
    {
        VideoRecorder { is_recording: false, tx }
    }

    pub fn is_recording(&self) -> (r: bool)
        ensures
            r == self.recording(),
    {
        self.is_recording
    }

    /// Ask the backend to start a capture session writing to `path`.  While
    /// a session is already running this changes nothing, so a repeated
    /// start cannot spawn a second capture.  Returns whether a new session
    /// was started, which fails only when the backend has hung up.
    pub fn start_record(&mut self, path: String) -> (started: bool)
        ensures
            final(self).recording() == (old(self).recording() || started),
            old(self).recording() ==> !started && *final(self) == *old(self),
    {
        if !self.is_recording {
            if send_signal(&self.tx, VideoRecorderSignal::Start(path)) {
                self.is_recording = true;
                return true;
            }
        }
        false
    }

    /// Ask the backend to end the running capture session.  While idle this
    /// changes nothing.  Returns whether a session was ended, which fails
    /// only when the backend has hung up.
    pub fn end_record(&mut self) -> (ended: bool)
        ensures
            final(self).recording() == (old(self).recording() && !ended),
            !old(self).recording() ==> !ended && *final(self) == *old(self),
    {
        if self.is_recording {
            if send_signal(&self.tx, VideoRecorderSignal::End) {
                self.is_recording = false;
                return true;
            }
        }
        false
    }
}

} // verus!
