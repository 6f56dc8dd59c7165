//! The score: an ordered sequence of note events with absolute timings.
//!
//! Events are appended with unit-relative timings — integer ticks of one
//! thirty-second note, eight ticks to the quarter unit — and stored with
//! absolute nanosecond timings obtained by multiplying the ticks by the
//! score's quarter unit. Insertion order is playback order; the cursor's
//! "next due" reading assumes the caller appends events with nondecreasing
//! start times.

use crate::timing::TimingSystem;
use crate::PlaybackError;
use vstd::prelude::*;

verus! {

/// Ticks in one quarter unit: unit-relative times are counts of
/// thirty-second notes.
pub const TICKS_PER_QUARTER: u64 = 8;

/// One note event: what to play, when, and for how long.
///
/// `start_time` and `duration` are nanoseconds; `start_time` is measured
/// from the playback origin, not from the previous event. A `midi_note` of
/// zero is a conventional rest and is scheduled like any other event.
#[derive(Clone, Copy, Debug, PartialEq, Eq, Structural)]
pub struct MusicalScoreNote {
    pub midi_note: u8,
    pub duration: u64,
    pub start_time: u64,
    pub velocity: u8,
}

impl MusicalScoreNote {
    /// Pitch and velocity fit in seven bits, and the note's end time fits
    /// the duration representation.
    pub open spec fn wf(self) -> bool {
        &&& self.midi_note < 128
        &&& self.velocity < 128
        &&& self.start_time + self.duration <= u64::MAX
    }

    pub fn new(midi_note: u8, duration: u64, start_time: u64, velocity: u8) -> (note:
        MusicalScoreNote)
        requires
            midi_note < 128,
            velocity < 128,
            start_time + duration <= u64::MAX,
        ensures
            note == (MusicalScoreNote { midi_note, duration, start_time, velocity }),
            note.wf(),
    {
        MusicalScoreNote { midi_note, duration, start_time, velocity }
    }
}

/// The absolute nanosecond value of a unit-relative time: `ticks`
/// thirty-second notes under the given quarter unit, truncated to whole
/// nanoseconds.
pub open spec fn ticks_to_nanos(quarter: u64, ticks: u32) -> int {
    (ticks * quarter) / (TICKS_PER_QUARTER as int)
}

/// An ordered, append-only sequence of note events, with the unit table
/// they were timed against.
#[derive(Clone, Debug)]
pub struct MusicalScore {
    pub score: Vec<MusicalScoreNote>,
    pub timingsystem: TimingSystem,
}

impl MusicalScore {
    /// The unit table is well formed and every event is.
    pub open spec fn wf(self) -> bool {
        &&& self.timingsystem.wf()
        &&& forall|i: int| 0 <= i < self.score@.len() ==> (#[trigger] self.score@[i]).wf()
    }

    /// Total playback length in nanoseconds: the last event's start time
    /// plus its duration, or zero for an empty score.
    pub open spec fn length_spec(self) -> int {
        if self.score@.len() == 0 {
            0
        } else {
            self.score@.last().start_time + self.score@.last().duration
        }
    }

    /// Builds an empty score whose unit table comes from the tempo; a zero
    /// tempo is rejected before any event can be added.
    pub fn new(bpm: u32) -> (result: Result<MusicalScore, PlaybackError>)
        ensures
            match result {
                Ok(s) => {
                    &&& bpm > 0
                    &&& s.wf()
                    &&& s.score@ =~= Seq::<MusicalScoreNote>::empty()
                    &&& s.length_spec() == 0
                    &&& s.timingsystem.quarter == crate::timing::NANOS_PER_MINUTE / (bpm as u64)
                },
                Err(e) => bpm == 0 && e is InvalidTempo,
            },
    {
        let timingsystem = TimingSystem::new(bpm)?;
        Ok(MusicalScore { timingsystem, score: Vec::new() })
    }

    /// Appends one event whose absolute timings are its unit-relative
    /// timings multiplied by the score's quarter unit.
    ///
    /// The builder does not check that start times arrive in nondecreasing
    /// order: that is the caller's documented obligation.
    pub fn add_note(&mut self, midi_note: u8, duration: u32, start_time: u32, velocity: u8)
        requires
            old(self).wf(),
            midi_note < 128,
            velocity < 128,
            ticks_to_nanos(old(self).timingsystem.quarter, start_time) + ticks_to_nanos(
                old(self).timingsystem.quarter,
                duration,
            ) <= u64::MAX,
        ensures
            final(self).wf(),
            final(self).timingsystem == old(self).timingsystem,
            final(self).score@ == old(self).score@.push(
                MusicalScoreNote {
                    midi_note,
                    duration: ticks_to_nanos(old(self).timingsystem.quarter, duration) as u64,
                    start_time: ticks_to_nanos(old(self).timingsystem.quarter, start_time) as u64,
                    velocity,
                },
            ),
            final(self).score@.len() == old(self).score@.len() + 1,
    {
        let quarter = self.timingsystem.quarter;
        let duration_nanos = ticks_to_nanos_exec(quarter, duration);
        let start_nanos = ticks_to_nanos_exec(quarter, start_time);
        self.score.push(MusicalScoreNote::new(midi_note, duration_nanos, start_nanos, velocity));
    }

    /// Total playback length: the last event's start time plus its
    /// duration, zero when the score is empty.
    pub fn length(&self) -> (length: u64)
        requires
            self.wf(),
        ensures
            length == self.length_spec(),
    {
        if self.score.len() == 0 {
            0
        } else {
            let last = self.score[self.score.len() - 1];
            last.start_time + last.duration
        }
    }
}

/// A score's length is decided by its final event alone: however many
/// events stand before it, appending an event makes the length that
/// event's start time plus its duration.
pub proof fn lemma_length_after_append(
    before: MusicalScore,
    after: MusicalScore,
    note: MusicalScoreNote,
)
    requires
        after.score@ == before.score@.push(note),
    ensures
        after.length_spec() == note.start_time + note.duration,
{
    assert(after.score@.last() == note);
}

/// Computes `ticks_to_nanos` on machine integers; the result must fit in
/// the nanosecond representation.
fn ticks_to_nanos_exec(quarter: u64, ticks: u32) -> (nanos: u64)
    requires
        ticks_to_nanos(quarter, ticks) <= u64::MAX,
    ensures
        nanos == ticks_to_nanos(quarter, ticks),
{
    proof {
        assert((ticks as int) * (quarter as int) <= u128::MAX) by (nonlinear_arith)
            requires
                ticks <= u32::MAX,
                quarter <= u64::MAX,
        ;
        assert((ticks as int) * (quarter as int) >= 0) by (nonlinear_arith)
            requires
                ticks >= 0,
                quarter >= 0,
        ;
    }
    let wide: u128 = (ticks as u128) * (quarter as u128);
    let nanos_wide: u128 = wide / (TICKS_PER_QUARTER as u128);
    nanos_wide as u64
}

} // verus!
