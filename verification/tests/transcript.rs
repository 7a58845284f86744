use voicebridge::transcript::{drop_blank_text, join_segments};

#[test]
fn segments_join_in_order() {
    let segments: Vec<Vec<u8>> = vec![b"Hello".to_vec(), b", ".to_vec(), b"world".to_vec()];
    assert_eq!(join_segments(&segments), b"Hello, world".to_vec());
}

#[test]
fn no_segments_join_to_nothing() {
    assert_eq!(join_segments(&Vec::new()), Vec::<u8>::new());
}

#[test]
fn empty_segments_are_kept_transparent() {
    let segments: Vec<Vec<u8>> = vec![Vec::new(), b"a".to_vec(), Vec::new()];
    assert_eq!(join_segments(&segments), b"a".to_vec());
}

#[test]
fn blank_transcript_is_dropped() {
    assert_eq!(drop_blank_text(Vec::new()), None);
    assert_eq!(drop_blank_text(b"   ".to_vec()), None);
    assert_eq!(drop_blank_text(b" \t\r\n".to_vec()), None);
}

#[test]
fn speaking_transcript_is_kept_unchanged() {
    let text = b"  turn the lights on ".to_vec();
    assert_eq!(drop_blank_text(text.clone()), Some(text));
}
