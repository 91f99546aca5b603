use vstd::prelude::*;

verus! {

/// The closed taxonomy of failures surfaced by this storage layer. Every
/// foreign failure from the backing store collapses into `Unexpected`: the
/// backend's error channel is loosely typed, so no finer distinction is
/// promised to callers.
#[derive(Clone, Copy, PartialEq, Eq, Structural, Debug)]
pub enum ErrorKind {
    Unexpected,
}

/// A structured error: a kind from the closed taxonomy plus a human-readable
/// message extracted from the foreign diagnostic, empty when none was
/// extractable. No foreign error value crosses this module's boundary.
#[derive(Debug)]
pub struct Error {
    kind: ErrorKind,
    message: String,
}

/// The text carried by a foreign diagnostic: its extractable string when it
/// has one, and the empty string otherwise.
pub open spec fn foreign_message_view(msg: Option<String>) -> Seq<char> {
    match msg {
        Some(s) => s@,
        None => Seq::<char>::empty(),
    }
}

impl Error {
    pub closed spec fn kind_spec(&self) -> ErrorKind {
        self.kind
    }

    pub closed spec fn message_spec(&self) -> Seq<char> {
        self.message@
    }

    pub fn new(kind: ErrorKind, message: String) -> (r: Error)
        ensures
            r.kind_spec() == kind,
            r.message_spec() == message@,
    {
        Error { kind, message }
    }

    pub fn kind(&self) -> (k: ErrorKind)
        ensures
            k == self.kind_spec(),
    {
        self.kind
    }

    pub fn message(&self) -> (m: &str)
        ensures
            m@ == self.message_spec(),
    {
        self.message.as_str()
    }
}

/// Translates a foreign diagnostic, already reduced to its extractable text,
/// into the structured taxonomy: always of kind `Unexpected`, carrying the
/// diagnostic's text or the empty string when none was extractable.
pub fn parse_js_error(msg: Option<String>) -> (r: Error)
    ensures
        r.kind_spec() == ErrorKind::Unexpected,
        r.message_spec() == foreign_message_view(msg),
{
    let message = match msg {
        Some(s) => s,
        None => String::new(),
    };
    Error::new(ErrorKind::Unexpected, message)
}

} // verus!
