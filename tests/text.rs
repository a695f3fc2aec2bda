use sara_mix_executor::text::{has_nul, identifier_text, text_from_decoded};

#[test]
fn ascii_identifier_is_kept() {
    assert_eq!(identifier_text(b"playlist-42"), "playlist-42");
}

#[test]
fn multibyte_identifier_is_kept() {
    assert_eq!(identifier_text("caf\u{e9} \u{1f3b5}".as_bytes()), "caf\u{e9} \u{1f3b5}");
}

#[test]
fn empty_identifier_stays_empty() {
    assert_eq!(identifier_text(b""), "");
}

#[test]
fn invalid_utf8_becomes_empty() {
    assert_eq!(identifier_text(&[0x61, 0xff, 0x62]), "");
    assert_eq!(identifier_text(&[0xc3]), "");
    assert_eq!(identifier_text(&[0xed, 0xa0, 0x80]), "");
}

#[test]
fn embedded_nul_becomes_empty() {
    assert_eq!(identifier_text(&[0x61, 0x00, 0x62]), "");
    assert_eq!(identifier_text(&[0x00]), "");
}

#[test]
fn nul_detection() {
    assert!(has_nul(&[1, 2, 0]));
    assert!(!has_nul(&[1, 2, 3]));
    assert!(!has_nul(&[]));
}

#[test]
fn decoded_text_is_used_without_nul() {
    assert_eq!(text_from_decoded(b"xy", Some(String::from("xy"))), "xy");
    assert_eq!(text_from_decoded(b"\xff", None), "");
    assert_eq!(text_from_decoded(b"x\0y", Some(String::from("x\0y"))), "");
}
