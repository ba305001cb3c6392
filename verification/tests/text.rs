use igc::text::ascii_only;
use igc::{as_text, BufEncoding, Error, Line};

#[test]
fn test_as_text() {
    assert_eq!(as_text(b"John Doe").unwrap(), "John Doe");
    assert_eq!(as_text("Jörg Müller".as_bytes()).unwrap(), "Jörg Müller");
    assert_eq!(as_text(b"J\xf6rg M\xfcller").unwrap(), "Jörg Müller");
}

#[test]
fn as_text_always_has_a_result() {
    assert_eq!(as_text(b"").unwrap(), "");
    assert_eq!(as_text(&[0xff]).unwrap(), "ÿ");
    assert_eq!(as_text(&[0x80]).unwrap(), "\u{80}");
    assert_eq!(as_text(&[0xc3]).unwrap(), "Ã");
    assert_eq!(as_text(&[0xc3, 0xa4]).unwrap(), "ä");
    assert_eq!(as_text(&[0xe2, 0x82, 0xac]).unwrap(), "€");
    assert_eq!(as_text(&[0xf0, 0x9f, 0x98, 0x80]).unwrap(), "😀");
    for b in 0..=255u8 {
        let text = as_text(&[b]).unwrap();
        assert_eq!(text.chars().count(), 1);
        assert_eq!(text.chars().next().unwrap() as u32, b as u32);
    }
}

#[test]
fn as_text_falls_back_for_ill_formed_utf8() {
    // an overlong encoding, a surrogate, a code point beyond the last one, a cut sequence
    for bytes in [&[0xc0u8, 0xaf][..], &[0xed, 0xa0, 0x80], &[0xf4, 0x90, 0x80, 0x80], &[0xe2, 0x82]]
    {
        let text = as_text(bytes).unwrap();
        let expected: String = bytes.iter().map(|b| *b as char).collect();
        assert_eq!(text, expected);
    }
}

#[test]
fn the_encoding_is_found_out_once() {
    let mut encoding = BufEncoding::Auto;
    assert_eq!(encoding.decode(b"plain").unwrap(), "plain");
    assert_eq!(encoding, BufEncoding::Auto);
    assert_eq!(encoding.decode(b"").unwrap(), "");
    assert_eq!(encoding, BufEncoding::Auto);
    assert_eq!(encoding.decode("Jörg".as_bytes()).unwrap(), "Jörg");
    assert_eq!(encoding, BufEncoding::UTF8);
    assert_eq!(
        encoding.decode(b"J\xf6rg").unwrap_err(),
        Error::Encoding { text: Line(b"J\xf6rg".to_vec()) }
    );
    assert_eq!(encoding, BufEncoding::UTF8);
    assert_eq!(encoding.decode(b"plain").unwrap(), "plain");
    assert_eq!(encoding, BufEncoding::UTF8);

    let mut encoding = BufEncoding::Auto;
    assert_eq!(encoding.decode(b"J\xf6rg").unwrap(), "Jörg");
    assert_eq!(encoding, BufEncoding::Latin1);
    assert_eq!(encoding.decode("Jörg".as_bytes()).unwrap(), "JÃ¶rg");
    assert_eq!(encoding, BufEncoding::Latin1);
    assert_eq!(encoding.decode(&[0xff, 0x00]).unwrap(), "ÿ\0");
    assert_eq!(encoding, BufEncoding::Latin1);
}

#[test]
fn ascii_is_below_128() {
    assert!(ascii_only(b""));
    assert!(ascii_only(b"I023638FXA3941ENL"));
    assert!(ascii_only(&[0x00, 0x7f]));
    assert!(!ascii_only(&[0x41, 0x80]));
    assert!(!ascii_only("Ä".as_bytes()));
}
