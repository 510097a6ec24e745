//! The failure value every fallible operation of this crate returns.

use vstd::prelude::*;

verus! {

/// A single discriminated failure value. Construction-time errors abort
/// construction entirely; iteration-time errors are surfaced per call and
/// are never conflated with the clean end-of-data signal.
#[derive(Debug)]
pub enum ParseError {
    /// A schema or structure violation: bad magic, malformed description,
    /// missing nodes or attributes, duplicate or unknown stream ids, a type
    /// mismatch, or an unknown compression code.
    General(String),
    /// A four-character stream type code outside the supported set.
    UnsupportedStreamType(String),
    /// A malformed header message: an offset or length in the schema-encoded
    /// record that does not fit the record.
    FlatBuffer(String),
    /// The header's description is not valid UTF-8 text.
    Utf8(String),
    /// The header's description is not a well-formed XML document.
    RoxmlTree(String),
    /// A stream id or dimension attribute that is not a decimal integer in
    /// range.
    ParseInt(String),
    /// A failure of the byte source, reported by the embedding program, or
    /// of a decompressor.
    Io(String),
}

impl ParseError {
    /// The error's text, for callers that log or display failures.
    pub fn message(&self) -> (r: &String)
        ensures
            r == self.spec_message(),
    {
        match self {
            ParseError::General(m) => m,
            ParseError::UnsupportedStreamType(m) => m,
            ParseError::FlatBuffer(m) => m,
            ParseError::Utf8(m) => m,
            ParseError::RoxmlTree(m) => m,
            ParseError::ParseInt(m) => m,
            ParseError::Io(m) => m,
        }
    }

    /// The text carried by the error, whichever kind it is.
    pub open spec fn spec_message(&self) -> String {
        match self {
            ParseError::General(m) => *m,
            ParseError::UnsupportedStreamType(m) => *m,
            ParseError::FlatBuffer(m) => *m,
            ParseError::Utf8(m) => *m,
            ParseError::RoxmlTree(m) => *m,
            ParseError::ParseInt(m) => *m,
            ParseError::Io(m) => *m,
        }
    }
}

} // verus!
