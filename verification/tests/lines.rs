use igc::{ByteLines, ByteLinesExt};

#[test]
fn byte_lines() {
    let buf = b"12\r".to_vec();
    let mut s = buf.byte_lines();
    assert_eq!(s.next().unwrap(), b"12\r");
    assert!(s.next().is_none());

    let buf = b"12\r\n\n".to_vec();
    let mut s = buf.byte_lines();
    assert_eq!(s.next().unwrap(), b"12");
    assert_eq!(s.next().unwrap(), b"");
    assert!(s.next().is_none());

    let buf = b"abc\ndef".to_vec();
    let mut s = buf.byte_lines();
    assert_eq!(s.next().unwrap(), b"abc");
    assert_eq!(s.next().unwrap(), b"def");
    assert!(s.next().is_none());

    let buf = b"abc\r\ndef".to_vec();
    let mut s = buf.byte_lines();
    assert_eq!(s.next().unwrap(), b"abc");
    assert_eq!(s.next().unwrap(), b"def");
    assert!(s.next().is_none());
}

#[test]
fn only_one_carriage_return_is_taken_off() {
    let mut s = ByteLines::new(b"a\r\r\nb\r\r".to_vec());
    assert_eq!(s.next().unwrap(), b"a\r");
    assert_eq!(s.next().unwrap(), b"b\r\r");
    assert!(s.next().is_none());
    assert!(s.next().is_none());
}

#[test]
fn empty_lines_are_lines() {
    let mut s = ByteLines::new(b"\n\r\n\n".to_vec());
    assert_eq!(s.next().unwrap(), b"");
    assert_eq!(s.next().unwrap(), b"");
    assert_eq!(s.next().unwrap(), b"");
    assert!(s.next().is_none());
    let mut s = ByteLines::new(Vec::new());
    assert!(s.next().is_none());
    let mut s = ByteLines::new(b"\r".to_vec());
    assert_eq!(s.next().unwrap(), b"\r");
    assert!(s.next().is_none());
}

#[test]
fn a_line_is_stripped_of_its_end() {
    use_strip(b"abc\r\n", b"abc");
    use_strip(b"abc\n", b"abc");
    use_strip(b"abc\r", b"abc\r");
    use_strip(b"abc", b"abc");
    use_strip(b"abc\r\r\n", b"abc\r");
    use_strip(b"\r\n", b"");
    use_strip(b"\n", b"");
    use_strip(b"", b"");
    use_strip(b"\r", b"\r");
    use_strip(b"ab\ncd\n", b"ab");
}

fn use_strip(line: &[u8], expected: &[u8]) {
    assert_eq!(igc::lines::strip_line_end(line), expected);
    let mut lines = ByteLines::new(line.to_vec());
    assert_eq!(lines.next().unwrap_or_default(), expected);
}
