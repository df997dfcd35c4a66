use vstd::prelude::*;
use vstd::utf8::{decode_utf8, encode_utf8, encode_utf8_decode_utf8, encode_utf8_valid_utf8, valid_utf8};
use crate::error::{ErrorKind, NoteError};

verus! {

/// The name of the note file inside the application's configuration directory.
pub const NOTES_FILE_NAME: &'static str = "notes.json";

/// The single note this application keeps.
#[derive(Clone, Debug)]
pub struct Note {
    pub content: String,
}

impl Note {
    pub fn new(content: String) -> (r: Note)
        ensures
            r.content@ == content@,
    {
        Note { content }
    }
}

#[verifier::external_type_specification]
#[verifier::external_body]
pub struct ExJsonError(serde_json::Error);

/// A lowercase hexadecimal digit.
pub open spec fn hex_digit(n: u32) -> char {
    if n == 0 { '0' } else if n == 1 { '1' } else if n == 2 { '2' } else if n == 3 { '3' }
    else if n == 4 { '4' } else if n == 5 { '5' } else if n == 6 { '6' } else if n == 7 { '7' }
    else if n == 8 { '8' } else if n == 9 { '9' } else if n == 10 { 'a' } else if n == 11 { 'b' }
    else if n == 12 { 'c' } else if n == 13 { 'd' } else if n == 14 { 'e' } else { 'f' }
}

/// How one character stands inside a JSON string: `"` and `\` behind a backslash,
/// the five control characters with a short escape as `\b \t \n \f \r`, the other
/// characters below U+0020 as `\u00xx`, every other character as itself.
pub open spec fn json_escape_char(c: char) -> Seq<char> {
    let n = c as u32;
    if c == '"' {
        seq!['\\', '"']
    } else if c == '\\' {
        seq!['\\', '\\']
    } else if n == 8 {
        seq!['\\', 'b']
    } else if n == 9 {
        seq!['\\', 't']
    } else if n == 10 {
        seq!['\\', 'n']
    } else if n == 12 {
        seq!['\\', 'f']
    } else if n == 13 {
        seq!['\\', 'r']
    } else if n < 32 {
        seq!['\\', 'u', '0', '0', hex_digit(n / 16), hex_digit(n % 16)]
    } else {
        seq![c]
    }
}

/// A text with each character escaped for a JSON string.
pub open spec fn json_escaped(s: Seq<char>) -> Seq<char>
    decreases s.len(),
{
    if s.len() == 0 {
        Seq::empty()
    } else {
        json_escaped(s.drop_last()) + json_escape_char(s.last())
    }
}

/// The JSON string literal for a text: its escaped characters between quotes.
pub open spec fn json_quoted(s: Seq<char>) -> Seq<char> {
    seq!['"'] + json_escaped(s) + seq!['"']
}

/// The text under `key` in the JSON object that a document holds, when the
/// document parses as JSON, is an object, and that key holds a string.
pub uninterp spec fn json_string_field(text: Seq<char>, key: Seq<char>) -> Option<Seq<char>>;

/// The key of the note object: `content`.
pub open spec fn content_key() -> Seq<char> {
    seq!['c', 'o', 'n', 't', 'e', 'n', 't']
}

/// What comes before the quoted content in the note file: `{"content":`.
pub open spec fn note_head() -> Seq<char> {
    seq!['{', '"'] + content_key() + seq!['"', ':']
}

/// What comes after the quoted content in the note file: `}`.
pub open spec fn note_tail() -> Seq<char> {
    seq!['}']
}

/// The note object with one field, around an already quoted JSON string.
pub open spec fn note_frame(quoted: Seq<char>) -> Seq<char> {
    note_head() + quoted + note_tail()
}

/// The exact text of the note file for a given content: `{"content":"..."}`.
pub open spec fn note_json(content: Seq<char>) -> Seq<char> {
    note_frame(json_quoted(content))
}

/// The content that a note file's text holds, if it decodes.
pub open spec fn decoded_content(text: Seq<char>) -> Option<Seq<char>> {
    json_string_field(text, content_key())
}

/// The content that loading yields from the note file's bytes: nothing stored
/// means the empty note; stored bytes yield their `content` string, if they are
/// UTF-8 and decode.
pub open spec fn loaded_content(file: Option<Seq<u8>>) -> Option<Seq<char>> {
    match file {
        None => Some(Seq::<char>::empty()),
        Some(bytes) => if valid_utf8(bytes) {
            decoded_content(decode_utf8(bytes))
        } else {
            None
        },
    }
}

/// Relies on serde_json::to_string on a str, which writes into a Vec and cannot
/// fail: the quoted and escaped JSON string literal for `s`; put inside an object
/// as the value of a key, serde_json's parser reads the same text back under it.
#[verifier::external_body]
fn json_quote(s: &str) -> (r: Result<String, serde_json::Error>)
    ensures
        r is Ok,
        r matches Ok(q) ==> q@ == json_quoted(s@),
        r matches Ok(q) ==> json_string_field(note_frame(q@), content_key()) == Some(s@),
{
    serde_json::to_string(s)
}

/// Relies on serde_json::from_str into a serde_json::Value, then Value::get with
/// `key` and Value::as_str: the string under that key, if the text is a JSON
/// object that holds one there.
#[verifier::external_body]
fn json_read_field(text: &str, key: &str) -> (r: Result<Option<String>, serde_json::Error>)
    ensures
        match r {
            Ok(Some(c)) => json_string_field(text@, key@) == Some(c@),
            _ => json_string_field(text@, key@) is None,
        },
{
    let v: serde_json::Value = serde_json::from_str(text)?;
    Ok(v.get(key).and_then(serde_json::Value::as_str).map(String::from))
}

/// Relies on serde_json::Error's Display: a readable message for the error.
#[verifier::external_body]
fn json_error_message(e: &serde_json::Error) -> String {
    e.to_string()
}

/// Relies on std::str::from_utf8: the text that the bytes encode, when they are
/// valid UTF-8, and nothing otherwise.
#[verifier::external_body]
fn utf8_text(bytes: &[u8]) -> (r: Option<&str>)
    ensures
        r is Some <==> valid_utf8(bytes@),
        r matches Some(t) ==> t@ == decode_utf8(bytes@),
{
    std::str::from_utf8(bytes).ok()
}

/// Puts an already quoted JSON string into the note object: `{"content":` before
/// it and `}` after it.
pub fn frame_note(quoted: &str) -> (r: String)
    ensures
        r@ == note_frame(quoted@),
{
    let mut text = String::from_str("{\"content\":");
    text.append(quoted);
    text.append("}");
    proof {
        reveal_strlit("{\"content\":");
        reveal_strlit("}");
        assert(text@ =~= note_frame(quoted@));
    }
    text
}

/// Encodes a note's content as the whole text of the note file. It always
/// succeeds, and what it writes, stored as UTF-8, loads back as the same content.
pub fn encode_note(content: &str) -> (r: Result<String, NoteError>)
    ensures
        r is Ok,
        r matches Ok(text) ==> text@ == note_json(content@),
        r matches Ok(text) ==> loaded_content(Some(encode_utf8(text@))) == Some(content@),
{
    match json_quote(content) {
        Ok(quoted) => {
            let text = frame_note(quoted.as_str());
            proof {
                encode_utf8_valid_utf8(text@);
                encode_utf8_decode_utf8(text@);
            }
            Ok(text)
        },
        Err(e) => Err(NoteError::serialization(json_error_message(&e))),
    }
}

/// Decodes the text of the note file into the note's content. A text that is not
/// a JSON object with a string under `content` is a serialization error.
pub fn decode_note(text: &str) -> (r: Result<String, NoteError>)
    ensures
        r is Ok <==> decoded_content(text@) is Some,
        r matches Ok(c) ==> decoded_content(text@) == Some(c@),
        r matches Err(e) ==> e.kind == ErrorKind::Serialization,
{
    let key: &str = "content";
    proof {
        reveal_strlit("content");
        assert(key@ =~= content_key());
    }
    match json_read_field(text, key) {
        Ok(Some(content)) => Ok(content),
        Ok(None) => Err(NoteError::serialization("the note file holds no string under \"content\"".to_string())),
        Err(e) => Err(NoteError::serialization(json_error_message(&e))),
    }
}

/// Decodes the bytes of the note file: bytes that are not UTF-8 are a
/// serialization error, like any other text that does not decode.
pub fn decode_note_bytes(bytes: &[u8]) -> (r: Result<String, NoteError>)
    ensures
        r is Ok <==> loaded_content(Some(bytes@)) is Some,
        r matches Ok(c) ==> loaded_content(Some(bytes@)) == Some(c@),
        r matches Err(e) ==> e.kind == ErrorKind::Serialization,
{
    match utf8_text(bytes) {
        Some(text) => decode_note(text),
        None => Err(NoteError::serialization("the note file is not UTF-8".to_string())),
    }
}

/// The note file's bytes, if there is a file.
pub open spec fn stored_bytes(file: Option<&[u8]>) -> Option<Seq<u8>> {
    match file {
        None => None,
        Some(b) => Some(b@),
    }
}

/// What loading returns, given the note file's bytes, or `None` when no note file
/// exists: a missing file is the empty note, not an error; a file that does not
/// decode is a serialization error, never the empty note.
pub fn load_note_from(file: Option<&[u8]>) -> (r: Result<String, NoteError>)
    ensures
        r is Ok <==> loaded_content(stored_bytes(file)) is Some,
        r matches Ok(c) ==> loaded_content(stored_bytes(file)) == Some(c@),
        r matches Err(e) ==> e.kind == ErrorKind::Serialization,
        file is None ==> (r matches Ok(c) && c@.len() == 0),
{
    match file {
        None => Ok(String::new()),
        Some(bytes) => decode_note_bytes(bytes),
    }
}

} // verus!
