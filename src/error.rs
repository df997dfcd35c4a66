use vstd::prelude::*;

verus! {

/// The three kinds of failure the overlay reports.
#[derive(Clone, Copy, Debug, PartialEq, Eq, Structural)]
pub enum ErrorKind {
    /// A directory or file could not be created, read or written.
    Io,
    /// The note payload could not be encoded, or the note file does not decode.
    Serialization,
    /// The platform refused a window, hotkey or notification request.
    Platform,
}

/// An error of some kind, with a human-readable message.
#[derive(Clone, Debug)]
pub struct NoteError {
    pub kind: ErrorKind,
    pub message: String,
}

pub open spec fn kind_label(kind: ErrorKind) -> Seq<char> {
    match kind {
        ErrorKind::Io => seq!['I', 'O', ' ', 'e', 'r', 'r', 'o', 'r'],
        ErrorKind::Serialization => seq![
            's', 'e', 'r', 'i', 'a', 'l', 'i', 'z', 'a', 't', 'i', 'o', 'n', ' ', 'e', 'r', 'r', 'o', 'r'
        ],
        ErrorKind::Platform => seq!['p', 'l', 'a', 't', 'f', 'o', 'r', 'm', ' ', 'e', 'r', 'r', 'o', 'r'],
    }
}

impl NoteError {
    pub fn new(kind: ErrorKind, message: String) -> (r: NoteError)
        ensures
            r.kind == kind,
            r.message@ == message@,
    {
        NoteError { kind, message }
    }

    pub fn io(message: String) -> (r: NoteError)
        ensures
            r.kind == ErrorKind::Io,
            r.message@ == message@,
    {
        NoteError::new(ErrorKind::Io, message)
    }

    pub fn serialization(message: String) -> (r: NoteError)
        ensures
            r.kind == ErrorKind::Serialization,
            r.message@ == message@,
    {
        NoteError::new(ErrorKind::Serialization, message)
    }

    pub fn platform(message: String) -> (r: NoteError)
        ensures
            r.kind == ErrorKind::Platform,
            r.message@ == message@,
    {
        NoteError::new(ErrorKind::Platform, message)
    }

    /// The text handed back across the invoke boundary: the kind, a colon,
    /// a space, then the message.
    pub fn describe(&self) -> (r: String)
        ensures
            r@ == kind_label(self.kind) + seq![':', ' '] + self.message@,
    {
        let label: &str = match self.kind {
            ErrorKind::Io => "IO error",
            ErrorKind::Serialization => "serialization error",
            ErrorKind::Platform => "platform error",
        };
        proof {
            reveal_strlit("IO error");
            reveal_strlit("serialization error");
            reveal_strlit("platform error");
            reveal_strlit(": ");
        }
        let mut r = String::from_str(label);
        r.append(": ");
        r.append(self.message.as_str());
        assert(r@ =~= kind_label(self.kind) + seq![':', ' '] + self.message@);
        r
    }
}

} // verus!
