use protoglot::framing::extract_message;

#[test]
fn extract_yields_each_message_then_suffix() {
    // Two complete messages followed by a newline-less suffix.
    let mut buf: Vec<u8> = b"a\nbb\nccc".to_vec();
    let m1 = extract_message(&mut buf, false);
    assert_eq!(m1, Some(b"a\n".to_vec()));
    let m2 = extract_message(&mut buf, false);
    assert_eq!(m2, Some(b"bb\n".to_vec()));
    // No further message until the stream ends.
    assert_eq!(extract_message(&mut buf, false), None);
    assert_eq!(buf, b"ccc".to_vec());
    // The final call drains the suffix as one message.
    let m3 = extract_message(&mut buf, true);
    assert_eq!(m3, Some(b"ccc".to_vec()));
    // Nothing remains afterwards.
    assert_eq!(extract_message(&mut buf, true), None);
    assert_eq!(buf.len(), 0);
}

#[test]
fn extract_without_newline_waits_for_more() {
    let mut buf: Vec<u8> = b"partial".to_vec();
    assert_eq!(extract_message(&mut buf, false), None);
    assert_eq!(buf, b"partial".to_vec());
}

#[test]
fn extract_on_empty_buffer_returns_nothing() {
    let mut buf: Vec<u8> = Vec::new();
    assert_eq!(extract_message(&mut buf, false), None);
    assert_eq!(extract_message(&mut buf, true), None);
}

#[test]
fn extract_lone_newline_is_one_message() {
    let mut buf: Vec<u8> = b"\n".to_vec();
    assert_eq!(extract_message(&mut buf, false), Some(b"\n".to_vec()));
    assert_eq!(buf.len(), 0);
}

#[test]
fn extract_final_message_keeps_its_newline() {
    let mut buf: Vec<u8> = b"xy\n".to_vec();
    assert_eq!(extract_message(&mut buf, true), Some(b"xy\n".to_vec()));
    assert_eq!(extract_message(&mut buf, true), None);
}
