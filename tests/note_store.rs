use quicknote::error::ErrorKind;
use quicknote::note::{
    decode_note, decode_note_bytes, encode_note, frame_note, load_note_from, Note, NOTES_FILE_NAME,
};

#[test]
fn note_file_name() {
    assert_eq!(NOTES_FILE_NAME, "notes.json");
}

#[test]
fn note_keeps_content() {
    let n = Note::new("abc".to_string());
    assert_eq!(n.content, "abc");
}

#[test]
fn encode_plain_text() {
    assert_eq!(encode_note("hello").unwrap(), "{\"content\":\"hello\"}");
}

#[test]
fn encode_escapes_quotes_and_newlines() {
    assert_eq!(
        encode_note("a\"b\nc\\d").unwrap(),
        "{\"content\":\"a\\\"b\\nc\\\\d\"}"
    );
}

#[test]
fn encode_empty_text() {
    assert_eq!(encode_note("").unwrap(), "{\"content\":\"\"}");
}

#[test]
fn round_trip_plain() {
    let text = encode_note("buy milk").unwrap();
    assert_eq!(load_note_from(Some(text.as_bytes())).unwrap(), "buy milk");
}

#[test]
fn round_trip_tricky_text() {
    let original = "line one\nline \"two\"\t\\ tab\u{1} ünïcödé 🎉 {\"content\":\"x\"}";
    let text = encode_note(original).unwrap();
    assert_eq!(load_note_from(Some(text.as_bytes())).unwrap(), original);
}

#[test]
fn round_trip_empty() {
    let text = encode_note("").unwrap();
    assert_eq!(load_note_from(Some(text.as_bytes())).unwrap(), "");
}

#[test]
fn missing_file_is_empty_note() {
    assert_eq!(load_note_from(None).unwrap(), "");
}

#[test]
fn decode_accepts_whitespace_and_other_fields() {
    let text = " { \"extra\": [1, 2], \"content\" : \"kept\" } ";
    assert_eq!(decode_note(text).unwrap(), "kept");
}

#[test]
fn corrupt_file_is_serialization_error() {
    let r = load_note_from(Some(&b"\x00garbage, not json"[..]));
    assert_eq!(r.unwrap_err().kind, ErrorKind::Serialization);
}

#[test]
fn truncated_file_is_serialization_error() {
    let r = load_note_from(Some(&b"{\"content\":\"half a no"[..]));
    assert_eq!(r.unwrap_err().kind, ErrorKind::Serialization);
}

#[test]
fn empty_file_is_serialization_error() {
    let r = load_note_from(Some(&b""[..]));
    assert_eq!(r.unwrap_err().kind, ErrorKind::Serialization);
}

#[test]
fn missing_content_field_is_serialization_error() {
    let r = decode_note("{\"other\":\"x\"}");
    assert_eq!(r.unwrap_err().kind, ErrorKind::Serialization);
}

#[test]
fn non_string_content_is_serialization_error() {
    let r = decode_note("{\"content\":5}");
    assert_eq!(r.unwrap_err().kind, ErrorKind::Serialization);
}

#[test]
fn non_object_is_serialization_error() {
    let r = decode_note("[\"content\"]");
    assert_eq!(r.unwrap_err().kind, ErrorKind::Serialization);
}

#[test]
fn later_save_wins() {
    let mut file = encode_note("first").unwrap();
    assert_eq!(load_note_from(Some(file.as_bytes())).unwrap(), "first");
    file = encode_note("second").unwrap();
    assert_eq!(load_note_from(Some(file.as_bytes())).unwrap(), "second");
}

#[test]
fn frame_wraps_quoted_text() {
    assert_eq!(frame_note("\"hi\""), "{\"content\":\"hi\"}");
    assert_eq!(decode_note(&frame_note("\"hi\"")).unwrap(), "hi");
}

#[test]
fn non_utf8_file_is_serialization_error() {
    let r = load_note_from(Some(&[0xFF, 0xFE, 0x00][..]));
    assert_eq!(r.unwrap_err().kind, ErrorKind::Serialization);
}

#[test]
fn non_utf8_inside_string_is_serialization_error() {
    let r = decode_note_bytes(b"{\"content\":\"\xC3\x28\"}");
    assert_eq!(r.unwrap_err().kind, ErrorKind::Serialization);
}

#[test]
fn decode_bytes_reads_utf8_content() {
    let text = encode_note("caf\u{e9}").unwrap();
    assert_eq!(decode_note_bytes(text.as_bytes()).unwrap(), "caf\u{e9}");
}

#[test]
fn encode_escapes_control_characters() {
    assert_eq!(
        encode_note("\u{1}\u{8}\u{c}\r\u{1f}\u{7f}").unwrap(),
        "{\"content\":\"\\u0001\\b\\f\\r\\u001f\u{7f}\"}"
    );
}

#[test]
fn saving_never_fails() {
    assert!(encode_note("hi").is_ok());
    assert!(encode_note("\u{0}").is_ok());
}
