//! The fixed three-byte frames that cross into the output sink.
//!
//! A frame is either "begin" (note-on status, pitch, velocity) or "end"
//! (note-off status, pitch, zero). Frames carry no timing: the emitter that
//! produces them has already applied it. The byte shape here is the one
//! wire contract the scheduler must honor exactly.

use crate::score::MusicalScoreNote;
use vstd::prelude::*;

verus! {

/// Status byte of a "begin" frame: the note-on class.
pub const NOTE_ON_MSG: u8 = 0x90;

/// Status byte of an "end" frame: the note-off class.
pub const NOTE_OFF_MSG: u8 = 0x80;

/// One three-byte message: status, pitch, velocity.
#[derive(Clone, Copy, Debug, PartialEq, Eq, Structural)]
pub struct Frame {
    pub status: u8,
    pub data1: u8,
    pub data2: u8,
}

/// The "begin" frame for a pitch and velocity.
pub open spec fn begin_frame_spec(pitch: u8, velocity: u8) -> Frame {
    Frame { status: NOTE_ON_MSG, data1: pitch, data2: velocity }
}

/// The "end" frame for a pitch: velocity is always zero.
pub open spec fn end_frame_spec(pitch: u8) -> Frame {
    Frame { status: NOTE_OFF_MSG, data1: pitch, data2: 0 }
}

impl Frame {
    /// Builds the "begin" frame announcing a note.
    pub fn begin(pitch: u8, velocity: u8) -> (frame: Frame)
        requires
            pitch < 128,
            velocity < 128,
        ensures
            frame == begin_frame_spec(pitch, velocity),
    {
        Frame { status: NOTE_ON_MSG, data1: pitch, data2: velocity }
    }

    /// Builds the "end" frame retiring a note.
    pub fn end(pitch: u8) -> (frame: Frame)
        requires
            pitch < 128,
        ensures
            frame == end_frame_spec(pitch),
    {
        Frame { status: NOTE_OFF_MSG, data1: pitch, data2: 0 }
    }

    /// The frame's exact wire shape: `[status, data1, data2]`.
    pub fn bytes(&self) -> (bytes: [u8; 3])
        ensures
            bytes@ =~= seq![self.status, self.data1, self.data2],
    {
        [self.status, self.data1, self.data2]
    }
}

/// The ordered pair of frames one emitter produces for one event: the
/// "begin" frame first, the "end" frame after the event's duration has been
/// held. Both name the event's pitch; only the first carries its velocity.
pub fn emitter_frames(note: &MusicalScoreNote) -> (frames: (Frame, Frame))
    requires
        note.wf(),
    ensures
        frames.0 == begin_frame_spec(note.midi_note, note.velocity),
        frames.1 == end_frame_spec(note.midi_note),
{
    (Frame::begin(note.midi_note, note.velocity), Frame::end(note.midi_note))
}

} // verus!
