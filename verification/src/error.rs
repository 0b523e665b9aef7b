use vstd::prelude::*;

verus! {

/// The ways in which reading or decoding can fail.
#[derive(Clone, Copy, Debug, PartialEq, Eq, Structural)]
pub enum ErrorKind {
    /// A read or seek on the stream could not be carried out.
    Io,
    /// The bytes of a text value are not valid UTF-8 or UTF-16.
    StringDecode,
    /// A metadata value declares a type code without a known interpretation.
    UnknownDataType(u32),
    /// A versioned atom declares a version whose layout is not known.
    UnknownVersion(u8),
}

/// A failure: its kind, and a message for a human reader.
#[derive(Clone, Debug, PartialEq, Eq)]
pub struct Error {
    /// What went wrong.
    pub kind: ErrorKind,
    /// A human readable description of the failure.
    pub description: String,
}

impl Error {
    /// Creates an error of the given kind with the given description.
    pub fn new(kind: ErrorKind, description: String) -> (e: Error)
        ensures
            e.kind == kind,
            e.description == description,
    {
        Error { kind, description }
    }

    /// Creates an `Io` error with the given description.
    pub fn io(description: &str) -> (e: Error)
        ensures
            e.kind == ErrorKind::Io,
            e.description@ == description@,
    {
        Error { kind: ErrorKind::Io, description: description.to_owned() }
    }
}

} // verus!
