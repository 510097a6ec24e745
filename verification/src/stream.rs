//! The declared shape of one logical stream: its content kind and, for
//! image-shaped kinds, its dimensions.

use vstd::prelude::*;
use crate::error::ParseError;
use crate::text::str_eq;

verus! {

/// The payload kind a stream declares; it fixes the four-character tag each
/// of the stream's decompressed payloads must carry.
#[derive(Copy, Clone, PartialEq, Eq, Structural, Debug)]
pub enum StreamContent {
    Events,
    Frame,
    Imus,
    Triggers,
}

impl StreamContent {
    /// The four-character type code of this kind, as text.
    pub open spec fn spec_identifier(self) -> Seq<char> {
        match self {
            StreamContent::Events => "EVTS"@,
            StreamContent::Frame => "FRME"@,
            StreamContent::Imus => "IMUS"@,
            StreamContent::Triggers => "TRIG"@,
        }
    }

    /// The four bytes of the type code, as they stand in a payload's
    /// embedded tag.
    pub open spec fn spec_identifier_bytes(self) -> Seq<u8> {
        match self {
            StreamContent::Events => seq!['E' as u8, 'V' as u8, 'T' as u8, 'S' as u8],
            StreamContent::Frame => seq!['F' as u8, 'R' as u8, 'M' as u8, 'E' as u8],
            StreamContent::Imus => seq!['I' as u8, 'M' as u8, 'U' as u8, 'S' as u8],
            StreamContent::Triggers => seq!['T' as u8, 'R' as u8, 'I' as u8, 'G' as u8],
        }
    }

    /// The content kind declared by a four-character type code; any other
    /// code is an unsupported stream type.
    pub fn from(identifier: &str) -> (r: Result<Self, ParseError>)
        ensures
            r.is_ok() == spec_supported_identifier(identifier@),
            r.is_ok() ==> r == Ok::<Self, ParseError>(spec_content_of_identifier(identifier@)),
            r.is_err() ==> (r matches Err(ParseError::UnsupportedStreamType(m))
                && m@ == "unsupported stream type"@),
    {
        if str_eq(identifier, "EVTS") {
            Ok(StreamContent::Events)
        } else if str_eq(identifier, "FRME") {
            Ok(StreamContent::Frame)
        } else if str_eq(identifier, "IMUS") {
            Ok(StreamContent::Imus)
        } else if str_eq(identifier, "TRIG") {
            Ok(StreamContent::Triggers)
        } else {
            Err(ParseError::UnsupportedStreamType("unsupported stream type".to_owned()))
        }
    }

    /// The four bytes of the type code, for the payload tag comparison.
    pub fn identifier_bytes(&self) -> (r: Vec<u8>)
        ensures
            r@ == self.spec_identifier_bytes(),
            r@.len() == 4,
    {
        let v: Vec<u8> = match self {
            StreamContent::Events => vec!['E' as u8, 'V' as u8, 'T' as u8, 'S' as u8],
            StreamContent::Frame => vec!['F' as u8, 'R' as u8, 'M' as u8, 'E' as u8],
            StreamContent::Imus => vec!['I' as u8, 'M' as u8, 'U' as u8, 'S' as u8],
            StreamContent::Triggers => vec!['T' as u8, 'R' as u8, 'I' as u8, 'G' as u8],
        };
        proof {
            assert(v@ =~= self.spec_identifier_bytes());
        }
        v
    }

    /// The four-character type code of this kind, for display and for the
    /// payload tag comparison.
    pub fn identifier(&self) -> (r: &'static str)
        ensures
            r@ == self.spec_identifier(),
    {
        match self {
            StreamContent::Events => "EVTS",
            StreamContent::Frame => "FRME",
            StreamContent::Imus => "IMUS",
            StreamContent::Triggers => "TRIG",
        }
    }
}

/// Whether a type code names one of the four supported content kinds.
pub open spec fn spec_supported_identifier(s: Seq<char>) -> bool {
    s == "EVTS"@ || s == "FRME"@ || s == "IMUS"@ || s == "TRIG"@
}

/// The kind `spec_supported_identifier` accepts a type code for.
pub open spec fn spec_content_of_identifier(s: Seq<char>) -> StreamContent
    recommends
        spec_supported_identifier(s),
{
    if s == "EVTS"@ {
        StreamContent::Events
    } else if s == "FRME"@ {
        StreamContent::Frame
    } else if s == "IMUS"@ {
        StreamContent::Imus
    } else {
        StreamContent::Triggers
    }
}

/// One logical stream as the header declares it: a content kind and, for
/// the image-shaped kinds, a width and height in pixels. Both dimensions
/// are zero for the kinds that carry no image.
#[derive(Copy, Clone, PartialEq, Eq, Structural, Debug)]
pub struct Stream {
    pub content: StreamContent,
    pub width: u16,
    pub height: u16,
}

} // verus!
