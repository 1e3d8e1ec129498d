use record_store::text::{check_nul_free, check_text, check_utf8};

#[test]
fn ascii_is_valid_text() {
    assert!(check_text(&b"Alice".to_vec()));
}

#[test]
fn empty_is_valid_text() {
    assert!(check_text(&Vec::new()));
}

#[test]
fn two_byte_sequences() {
    // U+00E9, "é".
    assert!(check_utf8(&vec![0xC3, 0xA9]));
    // Truncated: the continuation byte is missing.
    assert!(!check_utf8(&vec![0xC3]));
    // Overlong two-byte encoding of an ASCII character.
    assert!(!check_utf8(&vec![0xC0, 0x80]));
    assert!(!check_utf8(&vec![0xC1, 0xBF]));
}

#[test]
fn three_byte_sequences() {
    // U+4E16, a CJK character.
    assert!(check_utf8(&vec![0xE4, 0xB8, 0x96]));
    // Overlong three-byte encoding.
    assert!(!check_utf8(&vec![0xE0, 0x80, 0x80]));
    // A UTF-16 surrogate, forbidden in UTF-8.
    assert!(!check_utf8(&vec![0xED, 0xA0, 0x80]));
    // Truncated in the middle.
    assert!(!check_utf8(&vec![0xE4, 0xB8]));
}

#[test]
fn four_byte_sequences() {
    // U+1F600, an emoji.
    assert!(check_utf8(&vec![0xF0, 0x9F, 0x98, 0x80]));
    // Overlong four-byte encoding.
    assert!(!check_utf8(&vec![0xF0, 0x80, 0x80, 0x80]));
    // Above U+10FFFF.
    assert!(!check_utf8(&vec![0xF4, 0x90, 0x80, 0x80]));
    assert!(!check_utf8(&vec![0xF5, 0x80, 0x80, 0x80]));
    // Truncated.
    assert!(!check_utf8(&vec![0xF0, 0x9F, 0x98]));
}

#[test]
fn stray_continuation_byte_is_invalid() {
    assert!(!check_utf8(&vec![0x80]));
    assert!(!check_utf8(&vec![b'a', 0xBF]));
}

#[test]
fn validator_agrees_with_std_decoder() {
    let samples: Vec<Vec<u8>> = vec![
        b"plain ascii".to_vec(),
        "héllo wörld ✓ 世界 😀".as_bytes().to_vec(),
        vec![0xFF, 0xFE],
        vec![0xC3, 0xA9, 0xE4, 0xB8, 0x96, 0xF0, 0x9F, 0x98, 0x80],
        vec![0xED, 0x9F, 0xBF],
        vec![0xED, 0xA0, 0x80],
        vec![0xEE, 0x80, 0x80],
        vec![0xF4, 0x8F, 0xBF, 0xBF],
        vec![0xF4, 0x90, 0x80, 0x80],
        vec![0x41, 0xC2],
    ];
    for bytes in samples {
        assert_eq!(
            check_utf8(&bytes),
            std::str::from_utf8(&bytes).is_ok(),
            "disagreement on {:?}",
            bytes
        );
    }
}

#[test]
fn nul_detection() {
    assert!(check_nul_free(&b"abc".to_vec()));
    assert!(!check_nul_free(&vec![0]));
    assert!(!check_nul_free(&vec![b'a', 0, b'b']));
    // A nul byte is valid UTF-8 but not valid text here.
    assert!(check_utf8(&vec![b'a', 0]));
    assert!(!check_text(&vec![b'a', 0]));
}
