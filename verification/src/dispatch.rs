//! The playback loop's decision core.
//!
//! The dispatcher is polled with the elapsed wall-clock time since the
//! playback origin and answers with the one action the surrounding loop
//! should take: fire the next event on a concurrent emitter, wait one
//! polling quantum, stop scheduling and drain in-flight emitters, or stop
//! outright. The loop itself — reading the clock, sleeping, spawning
//! emitters — stays outside the library; every decision is made here.
//!
//! Due policy, pinned: an event is due once the elapsed time *strictly*
//! exceeds its start time. An event scheduled at the origin is therefore
//! not fired by a poll that still reads zero, but by the first poll with a
//! positive reading — the second iteration at the latest, one polling
//! quantum past its start time at worst.

use crate::cursor::MusicalScoreReader;
use crate::score::{MusicalScore, MusicalScoreNote};
use vstd::prelude::*;

verus! {

/// The phases of one playback.
#[derive(Clone, Copy, Debug, PartialEq, Eq, Structural)]
pub enum PlaybackState {
    /// Events remain and the deadline has not passed: keep scheduling.
    Running,
    /// Every event is consumed; emitters may still be in flight.
    Draining,
    /// The elapsed time reached the total length: nothing more to do.
    Stopped,
}

/// What the surrounding loop should do after one poll.
#[derive(Clone, Copy, Debug, PartialEq, Eq, Structural)]
pub enum DispatchAction {
    /// Launch one emitter for this event, which has just been retired from
    /// the cursor.
    Fire { note: MusicalScoreNote },
    /// Nothing is due yet: sleep one polling quantum and poll again.
    Wait,
    /// The cursor is exhausted: stop scheduling, let in-flight emitters
    /// finish into the sink.
    Drain,
    /// The deadline passed, or the dispatcher was already stopped.
    Stop,
}

/// Whether an event is due at an elapsed-time reading: the reading must
/// strictly exceed the event's start time.
pub open spec fn due(note: MusicalScoreNote, elapsed: u64) -> bool {
    elapsed > note.start_time
}

/// The scheduling core: a cursor over the score, the fixed total playback
/// length, and the current phase.
#[derive(Debug)]
pub struct Dispatcher {
    pub reader: MusicalScoreReader,
    pub playback_length: u64,
    pub state: PlaybackState,
}

impl Dispatcher {
    /// The cursor is well formed and the recorded length is the score's.
    pub open spec fn wf(self) -> bool {
        &&& self.reader.wf()
        &&& self.playback_length == self.reader.score.length_spec()
    }

    /// Takes ownership of the score, fixes the overall deadline from its
    /// length, and starts running at the first event.
    pub fn new(score: MusicalScore) -> (dispatcher: Dispatcher)
        requires
            score.wf(),
        ensures
            dispatcher.wf(),
            dispatcher.reader.score == score,
            dispatcher.reader.position == 0,
            dispatcher.playback_length == score.length_spec(),
            dispatcher.state is Running,
    {
        let playback_length = score.length();
        let reader = MusicalScoreReader::new(score);
        Dispatcher { reader, playback_length, state: PlaybackState::Running }
    }

    /// One poll: decides from the elapsed time what the loop does next.
    ///
    /// The deadline is checked first, so an empty or malformed score cannot
    /// keep the loop alive past the total length. Before the deadline, a
    /// running dispatcher drains on an exhausted cursor, fires the next
    /// event exactly when it is due — retiring it so it can never fire
    /// twice — and waits otherwise.
    pub fn step(&mut self, elapsed: u64) -> (action: DispatchAction)
        requires
            old(self).wf(),
        ensures
            final(self).wf(),
            final(self).playback_length == old(self).playback_length,
            final(self).reader.score == old(self).reader.score,
            elapsed >= old(self).playback_length ==> {
                &&& final(self).state is Stopped
                &&& action is Stop
                &&& final(self).reader == old(self).reader
            },
            elapsed < old(self).playback_length && !(old(self).state is Running) ==> {
                &&& final(self).state == old(self).state
                &&& final(self).reader == old(self).reader
                &&& action == (if old(self).state is Stopped {
                    DispatchAction::Stop
                } else {
                    DispatchAction::Drain
                })
            },
            elapsed < old(self).playback_length && old(self).state is Running ==> match old(
                self,
            ).reader.peek_spec() {
                None => {
                    &&& final(self).state is Draining
                    &&& action is Drain
                    &&& final(self).reader == old(self).reader
                },
                Some(note) => {
                    if due(note, elapsed) {
                        &&& final(self).state is Running
                        &&& action == (DispatchAction::Fire { note })
                        &&& final(self).reader.position == old(self).reader.position + 1
                    } else {
                        &&& final(self).state is Running
                        &&& action is Wait
                        &&& final(self).reader == old(self).reader
                    }
                },
            },
    {
        if elapsed >= self.playback_length {
            self.state = PlaybackState::Stopped;
            return DispatchAction::Stop;
        }
        match self.state {
            PlaybackState::Stopped => DispatchAction::Stop,
            PlaybackState::Draining => DispatchAction::Drain,
            PlaybackState::Running => match self.reader.peek() {
                None => {
                    self.state = PlaybackState::Draining;
                    DispatchAction::Drain
                },
                Some(note) => {
                    if elapsed > note.start_time {
                        let fired = self.reader.shift();
                        DispatchAction::Fire { note: fired }
                    } else {
                        DispatchAction::Wait
                    }
                },
            },
        }
    }
}

/// An event scheduled at the playback origin is due on any poll whose
/// elapsed-time reading is positive: under the strict due policy it can be
/// passed over only while the clock still reads zero, never skipped.
pub proof fn lemma_origin_event_due(note: MusicalScoreNote, elapsed: u64)
    requires
        note.start_time == 0,
        elapsed > 0,
    ensures
        due(note, elapsed),
{
}

} // verus!
