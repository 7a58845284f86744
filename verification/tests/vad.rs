use voicebridge::recorder::RecordingSession;
use voicebridge::vad::{apply_decision, fit_window, process_block, VoiceDetector, VAD_WINDOW};

#[test]
fn fit_window_truncates_long_blocks() {
    let samples: Vec<i16> = (0..1500).map(|i| i as i16).collect();
    let window = fit_window(&samples, VAD_WINDOW);
    assert_eq!(window.len(), VAD_WINDOW);
    assert_eq!(window[0], 0);
    assert_eq!(window[VAD_WINDOW - 1], (VAD_WINDOW - 1) as i16);
}

#[test]
fn fit_window_pads_short_blocks_with_silence() {
    let samples: Vec<i16> = vec![5, -5, 7];
    let window = fit_window(&samples, 8);
    assert_eq!(window, vec![5, -5, 7, 0, 0, 0, 0, 0]);
}

#[test]
fn classifier_always_answers() {
    let mut detector = VoiceDetector::new();
    // A silent block, shorter than the window: fitted and judged all
    // the same.
    let converted: Vec<i16> = vec![0; 100];
    assert!(detector.classify_block(&converted).is_some());
    // A block longer than the window.
    let long: Vec<i16> = vec![0; 4000];
    assert!(detector.classify_block(&long).is_some());
}

#[test]
fn silence_is_not_voice() {
    // The detector gives no general guarantee, but pure silence is the
    // one input it reliably rejects; idle silence must not start a
    // recording.
    let mut detector = VoiceDetector::new();
    let mut session = RecordingSession::new(3);
    let block: Vec<u32> = vec![0; 960];
    let converted: Vec<i16> = vec![0; 960];
    for _ in 0..3 {
        let emitted = process_block(&mut session, &mut detector, &block, &converted);
        assert!(emitted.is_none());
    }
    assert!(!session.is_recording());
    assert_eq!(session.accumulated_len(), 0);
}

#[test]
fn no_decision_leaves_session_unchanged() {
    // A block the detector failed to judge is skipped: state and
    // counters stay exactly as they were.
    let mut session = RecordingSession::new(3);
    session.feed_block(&vec![1, 2, 3], true);
    let before_len = session.accumulated_len();
    let emitted = apply_decision(&mut session, &vec![4, 5, 6], None);
    assert!(emitted.is_none());
    assert!(session.is_recording());
    assert_eq!(session.accumulated_len(), before_len);
    assert_eq!(session.silence_count(), 0);
}

#[test]
fn decision_drives_the_state_machine() {
    let mut session = RecordingSession::new(1);
    assert!(apply_decision(&mut session, &vec![11, 12], Some(true)).is_none());
    assert!(session.is_recording());
    let emitted = apply_decision(&mut session, &vec![13], Some(false));
    assert_eq!(emitted, Some(vec![11, 12, 13]));
    assert!(!session.is_recording());
}
