//! A forward-only read position over a score.
//!
//! The reader owns the score once playback starts and advances through it
//! one event per consumption. Lookahead never consumes; consumption is only
//! allowed while an event remains, so an exhausted reader cannot be
//! advanced and the library's functions never panic.

use crate::score::{MusicalScore, MusicalScoreNote};
use vstd::prelude::*;

verus! {

/// A score with a read position that only moves forward.
#[derive(Debug)]
pub struct MusicalScoreReader {
    pub score: MusicalScore,
    pub position: usize,
}

impl MusicalScoreReader {
    /// The score is well formed and the position lies within it, one past
    /// the last event at most.
    pub open spec fn wf(self) -> bool {
        &&& self.score.wf()
        &&& self.position <= self.score.score@.len()
    }

    /// Every event has been consumed.
    pub open spec fn exhausted(self) -> bool {
        self.position >= self.score.score@.len()
    }

    /// What a lookahead yields: the event at the read position, or nothing
    /// once the reader is exhausted.
    pub open spec fn peek_spec(self) -> Option<MusicalScoreNote> {
        if self.position < self.score.score@.len() {
            Some(self.score.score@[self.position as int])
        } else {
            None
        }
    }

    /// Takes ownership of the score and starts reading at its first event.
    pub fn new(score: MusicalScore) -> (reader: MusicalScoreReader)
        ensures
            reader.score == score,
            reader.position == 0,
    {
        MusicalScoreReader { score, position: 0 }
    }

    /// Returns the event at the read position without consuming it, or
    /// `None` if the reader is exhausted. Side-effect-free.
    pub fn peek(&self) -> (next: Option<MusicalScoreNote>)
        ensures
            next == self.peek_spec(),
    {
        if self.position < self.score.score.len() {
            Some(self.score.score[self.position])
        } else {
            None
        }
    }

    /// Consumes the event at the read position: returns it and moves the
    /// position forward by exactly one. Callers must look ahead first; an
    /// exhausted reader may not be shifted.
    pub fn shift(&mut self) -> (note: MusicalScoreNote)
        requires
            old(self).wf(),
            !old(self).exhausted(),
        ensures
            final(self).wf(),
            final(self).score == old(self).score,
            final(self).position == old(self).position + 1,
            Some(note) == old(self).peek_spec(),
    {
        // reading the executable length bounds the sequence view's length
        // by usize::MAX, so the position below can grow without overflow
        let count = self.score.score.len();
        assert(self.position < count);
        let note = self.score.score[self.position];
        self.position = self.position + 1;
        note
    }

    /// Total playback length of the whole score: a property of the score,
    /// constant for the reader's lifetime whatever the position.
    pub fn length(&self) -> (length: u64)
        requires
            self.score.wf(),
        ensures
            length == self.score.length_spec(),
    {
        self.score.length()
    }
}

/// Looking ahead is idempotent: two lookaheads of the same reader, with no
/// consumption between them, yield the same result.
pub proof fn lemma_peek_idempotent(
    first: Option<MusicalScoreNote>,
    second: Option<MusicalScoreNote>,
    reader: MusicalScoreReader,
)
    requires
        first == reader.peek_spec(),
        second == reader.peek_spec(),
    ensures
        first == second,
{
}

/// A reader that has consumed as many events as its score holds is
/// exhausted: looking ahead yields nothing.
pub proof fn lemma_exhausted_after_full_read(reader: MusicalScoreReader)
    requires
        reader.position == reader.score.score@.len(),
    ensures
        reader.exhausted(),
        reader.peek_spec() is None,
{
}

} // verus!
