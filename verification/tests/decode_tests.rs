use encoding::{all::WINDOWS_949, EncoderTrap, Encoding};
use kingdom_notice::decode::decode_body;
use kingdom_notice::NoticeError;

#[test]
fn utf8_round_trip() {
    let original = "공지사항 — notice ★";
    let body = original.as_bytes().to_vec();
    let ct = Some(String::from("text/html; charset=UTF-8"));
    let decoded = decode_body(&ct, &body).unwrap();
    assert_eq!(decoded, original);
}

#[test]
fn ms949_round_trip() {
    let original = "쿠키런 킹덤 공지사항";
    let body = WINDOWS_949.encode(original, EncoderTrap::Strict).unwrap();
    let ct = Some(String::from("text/html; charset=ms949"));
    let decoded = decode_body(&ct, &body).unwrap();
    assert_eq!(decoded, original);
}

#[test]
fn charset_match_is_case_insensitive() {
    let ct = Some(String::from("TEXT/HTML; CHARSET=MS949"));
    let body = WINDOWS_949.encode("안녕", EncoderTrap::Strict).unwrap();
    assert_eq!(decode_body(&ct, &body).unwrap(), "안녕");
}

#[test]
fn missing_content_type_fails() {
    let r = decode_body(&None, &b"whatever".to_vec());
    assert!(matches!(r, Err(NoticeError::MissingContentType)));
}

#[test]
fn unknown_charset_fails() {
    let ct = Some(String::from("text/html; charset=euc-kr"));
    let r = decode_body(&ct, &b"abc".to_vec());
    assert!(matches!(r, Err(NoticeError::UnsupportedEncoding)));
}

#[test]
fn invalid_utf8_fails_strictly() {
    let ct = Some(String::from("text/html; charset=utf-8"));
    let r = decode_body(&ct, &vec![0xff, 0xfe, 0x41]);
    assert!(matches!(r, Err(NoticeError::DecodeError)));
}

#[test]
fn invalid_ms949_fails_strictly() {
    let ct = Some(String::from("text/html; charset=ms949"));
    let r = decode_body(&ct, &vec![0xc1, 0xff, 0xff, 0xff]);
    assert!(matches!(r, Err(NoticeError::DecodeError)));
}
