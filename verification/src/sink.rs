//! The serializing output sink's delivery policy.
//!
//! One consumer drains the frame conduit and is the only writer to the
//! physical connection, so frames reach the device in arrival order and
//! never interleave at the byte level. The conduit and the device write
//! live outside the library; this module holds the sink's bookkeeping: each
//! write outcome is recorded here, every failure is reported exactly once,
//! and delivery of later frames continues unless the connection reported
//! itself permanently closed — only then is the playback incomplete.

use crate::PlaybackError;
use vstd::prelude::*;

verus! {

/// How one attempted device write ended.
#[derive(Clone, Copy, Debug, PartialEq, Eq, Structural)]
pub enum WriteOutcome {
    /// The connection accepted the frame.
    Accepted,
    /// The write failed but the connection may still recover.
    Failed,
    /// The connection reported itself permanently closed.
    Closed,
}

/// The sink's running record of attempted writes and failures.
#[derive(Clone, Copy, Debug, PartialEq, Eq, Structural)]
pub struct OutputSink {
    /// Frames whose delivery was attempted.
    pub frames_attempted: u64,
    /// Attempts that failed, fatally or not.
    pub failures: u64,
    /// Whether the connection reported itself permanently closed.
    pub closed: bool,
}

impl OutputSink {
    /// A fresh sink: nothing attempted, nothing failed, connection open.
    pub fn new() -> (sink: OutputSink)
        ensures
            sink.frames_attempted == 0,
            sink.failures == 0,
            !sink.closed,
    {
        OutputSink { frames_attempted: 0, failures: 0, closed: false }
    }

    /// Records one write outcome and reports it: a failure is surfaced
    /// exactly once, as a `DeviceWriteFailure`, at the attempt on which it
    /// occurred; an accepted write is never reported. The connection is
    /// marked closed exactly when the outcome says so — a recoverable
    /// failure leaves later frames to be attempted.
    pub fn record(&mut self, outcome: WriteOutcome) -> (report: Option<PlaybackError>)
        requires
            old(self).frames_attempted < u64::MAX,
            old(self).failures < u64::MAX,
        ensures
            final(self).frames_attempted == old(self).frames_attempted + 1,
            report is Some <==> !(outcome is Accepted),
            report is Some ==> report == Some(PlaybackError::DeviceWriteFailure),
            final(self).failures == if outcome is Accepted {
                old(self).failures as int
            } else {
                old(self).failures + 1
            },
            final(self).closed == (old(self).closed || outcome is Closed),
    {
        self.frames_attempted = self.frames_attempted + 1;
        match outcome {
            WriteOutcome::Accepted => None,
            WriteOutcome::Failed => {
                self.failures = self.failures + 1;
                Some(PlaybackError::DeviceWriteFailure)
            },
            WriteOutcome::Closed => {
                self.failures = self.failures + 1;
                self.closed = true;
                Some(PlaybackError::DeviceWriteFailure)
            },
        }
    }

    /// Whether the sink keeps attempting frames: yes until the connection
    /// reported itself permanently closed.
    pub fn should_continue(&self) -> (keep_going: bool)
        ensures
            keep_going == !self.closed,
    {
        !self.closed
    }

    /// Whether any write failed so far: the summary the caller reports
    /// after playback instead of aborting in-flight emitters.
    pub fn had_failures(&self) -> (any: bool)
        ensures
            any == (self.failures > 0),
    {
        self.failures > 0
    }
}

} // verus!
