//! A miniature timed-event scheduler for musical scores.
//!
//! A score is an ordered list of note events, each with an absolute start
//! time and a duration derived from a tempo. A forward-only cursor reads the
//! score; a polling dispatcher decides, from the elapsed wall-clock time,
//! when each event becomes due and what action the surrounding program
//! should take; fired events become fixed three-byte begin/end frames; and a
//! serializing sink policy governs how write failures on the one output
//! device are reported. All wall-clock reading, sleeping, threading and
//! device I/O stay outside the library: the library supplies the decisions
//! and the data, with contracts.

use vstd::prelude::*;

pub mod cursor;
pub mod dispatch;
pub mod frame;
pub mod score;
pub mod sink;
pub mod timing;

verus! {

/// The errors playback can surface.
///
/// Calling `advance` on an exhausted cursor is excluded by precondition
/// rather than represented here: the library's functions do not panic.
#[derive(Clone, Copy, Debug, PartialEq, Eq, Structural)]
pub enum PlaybackError {
    /// The tempo was zero, so no positive unit duration exists.
    InvalidTempo,
    /// No candidate output device was found at selection time.
    NoOutputDeviceFound,
    /// A write to the physical output connection failed.
    DeviceWriteFailure,
}

impl PlaybackError {
    /// A fixed description of the error, for callers that report it.
    pub fn message(&self) -> (text: &'static str)
        ensures
            self is InvalidTempo ==> text@ == "the tempo must be positive"@,
            self is NoOutputDeviceFound ==> text@ == "no output device was found"@,
            self is DeviceWriteFailure ==> text@ == "a write to the output device failed"@,
    {
        match self {
            PlaybackError::InvalidTempo => "the tempo must be positive",
            PlaybackError::NoOutputDeviceFound => "no output device was found",
            PlaybackError::DeviceWriteFailure => "a write to the output device failed",
        }
    }
}

} // verus!
