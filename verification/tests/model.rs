use score_playback::cursor::MusicalScoreReader;
use score_playback::frame::{emitter_frames, Frame};
use score_playback::score::MusicalScore;
use score_playback::timing::TimingSystem;
use score_playback::PlaybackError;

#[test]
fn quarter_unit_matches_tempo() {
    let t = TimingSystem::new(200).unwrap();
    assert_eq!(t.quarter, 300_000_000);
    assert_eq!(t.half, 600_000_000);
    assert_eq!(t.whole, 1_200_000_000);
    assert_eq!(t.eighth, 150_000_000);
    assert_eq!(t.sixteenth, 75_000_000);
    assert_eq!(t.thirtysecond, 37_500_000);

    let t60 = TimingSystem::new(60).unwrap();
    assert_eq!(t60.quarter, 1_000_000_000);
}

#[test]
fn subdivision_exact_at_odd_tempo() {
    // 60s / 7 does not divide evenly; the doubled units must still compose
    // exactly from the truncated quarter.
    let t = TimingSystem::new(7).unwrap();
    assert_eq!(t.quarter, 60_000_000_000 / 7);
    assert_eq!(t.half, 2 * t.quarter);
    assert_eq!(t.whole, 2 * t.half);
    assert_eq!(t.eighth, t.quarter / 2);
    assert_eq!(t.sixteenth, t.eighth / 2);
    assert_eq!(t.thirtysecond, t.sixteenth / 2);
}

#[test]
fn zero_tempo_rejected() {
    assert_eq!(TimingSystem::new(0).unwrap_err(), PlaybackError::InvalidTempo);
    assert!(matches!(MusicalScore::new(0), Err(PlaybackError::InvalidTempo)));
}

#[test]
fn empty_score_length_is_zero() {
    let score = MusicalScore::new(120).unwrap();
    assert_eq!(score.length(), 0);
}

#[test]
fn length_is_last_events_extent() {
    // Tempo 200: quarter = 300ms. Ticks are thirty-seconds: 8 ticks = one
    // quarter.
    let mut score = MusicalScore::new(200).unwrap();
    score.add_note(60, 4, 0, 100);
    score.add_note(62, 4, 8, 100);
    score.add_note(64, 8, 16, 100);
    // last event: starts at 2 quarters (600ms), lasts 1 quarter (300ms)
    assert_eq!(score.length(), 600_000_000 + 300_000_000);
}

#[test]
fn add_note_computes_absolute_times() {
    let mut score = MusicalScore::new(200).unwrap();
    score.add_note(54, 4, 8, 127);
    let note = score.score[0];
    assert_eq!(note.midi_note, 54);
    assert_eq!(note.velocity, 127);
    assert_eq!(note.start_time, 300_000_000); // one quarter in
    assert_eq!(note.duration, 150_000_000); // half a quarter long
}

#[test]
fn note_new_keeps_its_fields() {
    let note = score_playback::score::MusicalScoreNote::new(54, 150_000_000, 300_000_000, 127);
    assert_eq!(note.midi_note, 54);
    assert_eq!(note.duration, 150_000_000);
    assert_eq!(note.start_time, 300_000_000);
    assert_eq!(note.velocity, 127);
}

#[test]
fn peek_is_idempotent() {
    let mut score = MusicalScore::new(120).unwrap();
    score.add_note(60, 4, 0, 100);
    score.add_note(62, 4, 8, 100);
    let mut reader = MusicalScoreReader::new(score);

    let first = reader.peek();
    let second = reader.peek();
    assert_eq!(first, second);
    assert_eq!(first.unwrap().midi_note, 60);

    reader.shift();
    let after = reader.peek();
    assert_eq!(after.unwrap().midi_note, 62);
    assert_eq!(reader.peek(), after);
}

#[test]
fn advance_increases_position_until_exhausted() {
    let pitches = [66u8, 64, 62, 60];
    let mut score = MusicalScore::new(120).unwrap();
    for (i, &p) in pitches.iter().enumerate() {
        score.add_note(p, 4, 8 * i as u32, 100);
    }
    let mut reader = MusicalScoreReader::new(score);
    assert_eq!(reader.position, 0);
    for (i, &p) in pitches.iter().enumerate() {
        assert!(reader.peek().is_some());
        let note = reader.shift();
        assert_eq!(note.midi_note, p);
        assert_eq!(reader.position, i + 1);
    }
    // exactly N advances on an N-event score: exhausted
    assert!(reader.peek().is_none());
}

#[test]
fn reader_length_is_constant_over_advances() {
    let mut score = MusicalScore::new(200).unwrap();
    score.add_note(60, 4, 0, 100);
    score.add_note(62, 4, 8, 100);
    let mut reader = MusicalScoreReader::new(score);
    let before = reader.length();
    reader.shift();
    assert_eq!(reader.length(), before);
}

#[test]
fn frame_bytes_are_the_wire_shape() {
    let begin = Frame::begin(54, 127);
    assert_eq!(begin.bytes(), [0x90, 54, 127]);
    let end = Frame::end(54);
    assert_eq!(end.bytes(), [0x80, 54, 0]);
}

#[test]
fn emitter_produces_begin_then_end() {
    let mut score = MusicalScore::new(200).unwrap();
    score.add_note(54, 4, 4, 127);
    let note = score.score[0];
    let (begin, end) = emitter_frames(&note);
    assert_eq!(begin.bytes(), [0x90, 54, 127]);
    assert_eq!(end.bytes(), [0x80, 54, 0]);
}
