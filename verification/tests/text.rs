use icd_files::text::is_valid_utf8_text;

#[test]
fn empty_and_ascii_are_valid() {
    assert!(is_valid_utf8_text(&Vec::new()));
    assert!(is_valid_utf8_text(&b"plain ASCII, digits 0123456789\n".to_vec()));
}

#[test]
fn multi_byte_sequences_are_valid() {
    assert!(is_valid_utf8_text(&vec![0xc3, 0xa9])); // two bytes
    assert!(is_valid_utf8_text(&vec![0xe2, 0x82, 0xac])); // three bytes
    assert!(is_valid_utf8_text(&vec![0xf0, 0x9f, 0x98, 0x80])); // four bytes
    assert!(is_valid_utf8_text(&"caf\u{e9} \u{20ac} \u{1f600}".as_bytes().to_vec()));
}

#[test]
fn boundary_code_points_are_valid() {
    assert!(is_valid_utf8_text(&vec![0x7f])); // last one-byte
    assert!(is_valid_utf8_text(&vec![0xc2, 0x80])); // first two-byte
    assert!(is_valid_utf8_text(&vec![0xdf, 0xbf])); // last two-byte
    assert!(is_valid_utf8_text(&vec![0xe0, 0xa0, 0x80])); // first three-byte
    assert!(is_valid_utf8_text(&vec![0xed, 0x9f, 0xbf])); // last before surrogates
    assert!(is_valid_utf8_text(&vec![0xee, 0x80, 0x80])); // first after surrogates
    assert!(is_valid_utf8_text(&vec![0xef, 0xbf, 0xbf])); // last three-byte
    assert!(is_valid_utf8_text(&vec![0xf0, 0x90, 0x80, 0x80])); // first four-byte
    assert!(is_valid_utf8_text(&vec![0xf4, 0x8f, 0xbf, 0xbf])); // last code point
}

#[test]
fn stray_and_truncated_sequences_are_invalid() {
    assert!(!is_valid_utf8_text(&vec![0x80])); // lone continuation
    assert!(!is_valid_utf8_text(&vec![0x61, 0xbf])); // continuation after ASCII
    assert!(!is_valid_utf8_text(&vec![0xc3])); // truncated two-byte
    assert!(!is_valid_utf8_text(&vec![0xe2, 0x82])); // truncated three-byte
    assert!(!is_valid_utf8_text(&vec![0xf0, 0x9f, 0x98])); // truncated four-byte
    assert!(!is_valid_utf8_text(&vec![0xc3, 0x61])); // non-continuation second byte
}

#[test]
fn overlong_forms_are_invalid() {
    assert!(!is_valid_utf8_text(&vec![0xc0, 0x80]));
    assert!(!is_valid_utf8_text(&vec![0xc1, 0xbf]));
    assert!(!is_valid_utf8_text(&vec![0xe0, 0x80, 0x80]));
    assert!(!is_valid_utf8_text(&vec![0xe0, 0x9f, 0xbf]));
    assert!(!is_valid_utf8_text(&vec![0xf0, 0x80, 0x80, 0x80]));
    assert!(!is_valid_utf8_text(&vec![0xf0, 0x8f, 0xbf, 0xbf]));
}

#[test]
fn surrogates_and_out_of_range_values_are_invalid() {
    assert!(!is_valid_utf8_text(&vec![0xed, 0xa0, 0x80])); // first surrogate
    assert!(!is_valid_utf8_text(&vec![0xed, 0xbf, 0xbf])); // last surrogate
    assert!(!is_valid_utf8_text(&vec![0xf4, 0x90, 0x80, 0x80])); // above last code point
    assert!(!is_valid_utf8_text(&vec![0xf5, 0x80, 0x80, 0x80])); // lead byte too large
    assert!(!is_valid_utf8_text(&vec![0xfe]));
    assert!(!is_valid_utf8_text(&vec![0xff]));
}

#[test]
fn agrees_with_the_standard_decoder() {
    let samples: Vec<Vec<u8>> = vec![
        b"hello".to_vec(),
        vec![0xc3, 0xa9, 0x21],
        vec![0xe0, 0xa0, 0x80, 0x61],
        vec![0xed, 0xa0, 0x80],
        vec![0xf4, 0x90, 0x80, 0x80],
        vec![0xc0, 0xaf],
        vec![0x80, 0x80],
        vec![0xf0, 0x9f, 0x98, 0x80, 0xf0, 0x9f],
        Vec::new(),
    ];
    for bytes in samples {
        assert_eq!(
            is_valid_utf8_text(&bytes),
            std::str::from_utf8(&bytes).is_ok(),
            "disagreement on {:?}",
            bytes
        );
    }
}
