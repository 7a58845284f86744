use voicebridge::recorder::RecordingSession;

fn block(tag: u32, len: usize) -> Vec<u32> {
    (0..len as u32).map(|i| tag * 1000 + i).collect()
}

#[test]
fn idle_silence_changes_nothing() {
    // Non-voice blocks while idle leave the session idle with an empty
    // accumulator, and never emit.
    let mut session = RecordingSession::new(3);
    for i in 0..3u32 {
        let b = block(i, 8);
        let emitted = session.feed_block(&b, false);
        assert!(emitted.is_none());
        assert!(!session.is_recording());
        assert_eq!(session.accumulated_len(), 0);
    }
}

#[test]
fn voice_starts_recording_with_block_first() {
    let mut session = RecordingSession::new(3);
    let b = block(7, 8);
    let emitted = session.feed_block(&b, true);
    assert!(emitted.is_none());
    assert!(session.is_recording());
    assert_eq!(session.accumulated_len(), 8);
    assert_eq!(session.silence_count(), 0);
}

#[test]
fn threshold_minus_one_does_not_emit() {
    // threshold 3: two consecutive non-voice blocks after the voice
    // block leave the session recording with nothing emitted.
    let mut session = RecordingSession::new(3);
    assert!(session.feed_block(&block(0, 4), true).is_none());
    assert!(session.feed_block(&block(1, 4), false).is_none());
    assert!(session.feed_block(&block(2, 4), false).is_none());
    assert!(session.is_recording());
    assert_eq!(session.silence_count(), 2);
    assert_eq!(session.accumulated_len(), 12);
}

#[test]
fn exactly_threshold_silence_emits_concatenation() {
    // threshold 3, decisions [true, true, false, false, false]:
    // exactly one utterance holding all five blocks' samples in
    // arrival order, and the session returns to idle.
    let mut session = RecordingSession::new(3);
    let blocks: Vec<Vec<u32>> = (0..5u32).map(|i| block(i, 4)).collect();
    let decisions = [true, true, false, false, false];
    let mut emitted: Vec<Vec<u32>> = Vec::new();
    for (b, &d) in blocks.iter().zip(decisions.iter()) {
        if let Some(u) = session.feed_block(b, d) {
            emitted.push(u);
        }
    }
    assert_eq!(emitted.len(), 1);
    let expected: Vec<u32> = blocks.concat();
    assert_eq!(emitted[0], expected);
    assert!(!session.is_recording());
    assert_eq!(session.accumulated_len(), 0);
}

#[test]
fn all_silent_run_never_emits() {
    // Decisions [false, false, false]: no utterance is ever emitted
    // and the accumulator stays empty throughout.
    let mut session = RecordingSession::new(3);
    for i in 0..3u32 {
        assert!(session.feed_block(&block(i, 16), false).is_none());
        assert_eq!(session.accumulated_len(), 0);
    }
}

#[test]
fn voice_resets_silence_run() {
    // threshold 2: false, then voice, then one false again — the run
    // restarts, so nothing is emitted until the second consecutive
    // false.
    let mut session = RecordingSession::new(2);
    assert!(session.feed_block(&block(0, 4), true).is_none());
    assert!(session.feed_block(&block(1, 4), false).is_none());
    assert!(session.feed_block(&block(2, 4), true).is_none());
    assert_eq!(session.silence_count(), 0);
    assert!(session.feed_block(&block(3, 4), false).is_none());
    let emitted = session.feed_block(&block(4, 4), false);
    assert!(emitted.is_some());
    assert_eq!(emitted.unwrap().len(), 20);
}

#[test]
fn discard_drops_accumulator_without_emitting() {
    // A shutdown while recording discards the in-progress utterance.
    let mut session = RecordingSession::new(5);
    session.feed_block(&block(0, 10), true);
    assert!(session.is_recording());
    assert_eq!(session.accumulated_len(), 10);
    session.discard();
    assert!(!session.is_recording());
    assert_eq!(session.accumulated_len(), 0);
    // Nothing queued: a later recording starts from scratch.
    let emitted = session.feed_block(&block(1, 4), true);
    assert!(emitted.is_none());
    assert_eq!(session.accumulated_len(), 4);
}

#[test]
fn threshold_one_emits_on_first_silence() {
    let mut session = RecordingSession::new(1);
    assert!(session.feed_block(&block(0, 2), true).is_none());
    let emitted = session.feed_block(&block(1, 2), false);
    let u = emitted.expect("first non-voice block must emit at threshold 1");
    assert_eq!(u, vec![0, 1, 1000, 1001]);
}
