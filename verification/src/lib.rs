//! Decoder for the AEDAT4 container format: a magic preamble, a
//! length-prefixed self-describing header that declares the logical streams,
//! and a sequence of length-prefixed, per-stream, optionally compressed
//! packets.
//!
//! The crate holds the wire-level logic: header validation, the schema
//! description's interpretation, packet framing, compression dispatch and
//! the cross-check between a packet's stream id and its payload tag.
//! Reading bytes from a file or socket is left to the embedding program,
//! which hands the bytes read to the functions here.

mod compress;
mod decoder;
mod error;
mod ioheader;
mod registry;
mod stream;
mod text;
mod wire;
mod xml;

pub use decoder::{
    check_magic, classify_read_failure, compression_of_code, Compression, Decoder, Packet,
    PacketIssue, RecordReadStage,
};
pub use error::ParseError;
pub use ioheader::{parse_ioheader, IoHeader};
pub use registry::{build_registry, issue_error, DescriptionIssue};
pub use stream::{Stream, StreamContent};
pub use text::{parse_u16, parse_u32, str_eq};
pub use wire::magic_number;
pub use xml::XmlElement;
