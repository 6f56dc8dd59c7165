//! Conversion of a tempo into a table of named note-duration units.
//!
//! All durations in the library are integer counts of nanoseconds, so the
//! binary subdivisions relate to one another exactly: doubling the quarter
//! unit gives the half unit with no rounding drift.

use crate::PlaybackError;
use vstd::prelude::*;

verus! {

/// Nanoseconds in one minute: the dividend for beats-per-minute.
pub const NANOS_PER_MINUTE: u64 = 60_000_000_000;

/// The table of note-duration units for one tempo, each in nanoseconds.
///
/// Built once at score-construction time and never changed; playback only
/// reads it.
#[derive(Clone, Copy, Debug, PartialEq, Eq, Structural)]
pub struct TimingSystem {
    pub thirtysecond: u64,
    pub sixteenth: u64,
    pub eighth: u64,
    pub quarter: u64,
    pub half: u64,
    pub whole: u64,
}

impl TimingSystem {
    /// The units stand in their exact binary relations around a positive
    /// quarter unit: halving downward may truncate a nanosecond, doubling
    /// upward is exact.
    pub open spec fn wf(self) -> bool {
        &&& 0 < self.quarter <= NANOS_PER_MINUTE
        &&& self.eighth == self.quarter / 2
        &&& self.sixteenth == self.eighth / 2
        &&& self.thirtysecond == self.sixteenth / 2
        &&& self.half == 2 * self.quarter
        &&& self.whole == 2 * self.half
    }

    /// Builds the unit table for a tempo in beats per minute.
    ///
    /// The quarter unit (one beat) is sixty seconds divided by the tempo,
    /// truncated to whole nanoseconds; every other unit is derived from it
    /// by exact doubling or truncating halving. A zero tempo admits no
    /// positive unit and is rejected.
    pub fn new(bpm: u32) -> (result: Result<TimingSystem, PlaybackError>)
        ensures
            match result {
                Ok(t) => {
                    &&& bpm > 0
                    &&& t.wf()
                    &&& t.quarter == NANOS_PER_MINUTE / (bpm as u64)
                    &&& t.eighth == t.quarter / 2
                    &&& t.sixteenth == t.eighth / 2
                    &&& t.thirtysecond == t.sixteenth / 2
                    &&& t.half == 2 * t.quarter
                    &&& t.whole == 2 * t.half
                },
                Err(e) => bpm == 0 && e is InvalidTempo,
            },
    {
        if bpm == 0 {
            return Err(PlaybackError::InvalidTempo);
        }
        let quarter: u64 = NANOS_PER_MINUTE / (bpm as u64);
        proof {
            vstd::arithmetic::div_mod::lemma_div_non_zero(
                NANOS_PER_MINUTE as int,
                bpm as int,
            );
            vstd::arithmetic::div_mod::lemma_div_nonincreasing(
                NANOS_PER_MINUTE as int,
                bpm as int,
            );
        }
        let eighth: u64 = quarter / 2;
        let sixteenth: u64 = eighth / 2;
        let thirtysecond: u64 = sixteenth / 2;
        let half: u64 = quarter * 2;
        let whole: u64 = half * 2;
        Ok(TimingSystem { thirtysecond, sixteenth, eighth, quarter, half, whole })
    }
}

} // verus!
