//! The decoder session: the stream registry, the compression mode fixed at
//! header time, and the running byte position. The embedding program reads
//! the bytes — the magic preamble, the length-prefixed header record, and
//! each packet record — and hands them here; every decision about them is
//! made by the verified functions of this module.

use std::collections::HashMap;
use vstd::prelude::*;
use crate::compress::{lz4_decompress, spec_decompressed, zstd_decompress};
use crate::error::ParseError;
use crate::ioheader::{parse_ioheader, spec_parse_ioheader};
use crate::registry::{build_registry, issue_error, spec_build_registry, spec_issue_error_matches};
use crate::stream::{Stream, StreamContent};
use crate::text::utf8_string;
use crate::wire::{count_byte, spec_count_byte};
use crate::xml::{parse_xml_document, spec_xml_document};

verus! {

/// The most markup openings — `<` bytes — a description may hold. The
/// outside XML reader descends once per nested element, so an unbounded
/// description could exhaust the call stack; every start tag costs one
/// `<`, so this cap bounds the descent. Real descriptions hold a few
/// dozen.
pub const MARKUP_LIMIT: usize = 1024;

/// The compression mode of the whole source, read once from the header
/// and never changed. The high-effort variants decode exactly as their
/// plain counterparts; an unrecognized code is kept, and rejects every
/// packet.
#[derive(Copy, Clone, PartialEq, Eq, Structural, Debug)]
pub enum Compression {
    Uncompressed,
    Lz4,
    Lz4High,
    Zstd,
    ZstdHigh,
    Unrecognized(u32),
}

/// The compression mode a header code declares.
pub open spec fn spec_compression_of_code(code: u32) -> Compression {
    if code == 0 {
        Compression::Uncompressed
    } else if code == 1 {
        Compression::Lz4
    } else if code == 2 {
        Compression::Lz4High
    } else if code == 3 {
        Compression::Zstd
    } else if code == 4 {
        Compression::ZstdHigh
    } else {
        Compression::Unrecognized(code)
    }
}

pub fn compression_of_code(code: u32) -> (r: Compression)
    ensures
        r == spec_compression_of_code(code),
{
    match code {
        0 => Compression::Uncompressed,
        1 => Compression::Lz4,
        2 => Compression::Lz4High,
        3 => Compression::Zstd,
        4 => Compression::ZstdHigh,
        _ => Compression::Unrecognized(code),
    }
}

/// One decompressed, validated unit of payload data and the id of the
/// stream that carries it. Ownership passes fully to the caller.
#[derive(Debug, Clone)]
pub struct Packet {
    pub buffer: Vec<u8>,
    pub stream_id: u32,
}

/// Everything that can reject one packet record.
#[derive(Copy, Clone, PartialEq, Eq, Structural, Debug)]
pub enum PacketIssue {
    /// The session's compression code is outside the known set.
    UnknownCompression,
    /// The raw bytes are not a well-formed frame of the session's codec.
    DecodeFailed,
    /// The record names a stream id the header never declared.
    UnknownStreamId,
    /// The decompressed payload's embedded tag is not the declared kind's.
    IdentifierMismatch,
}

/// Whether a decompressed payload carries the embedded four-byte type tag
/// of the given kind, at bytes 8 to 12 — after the payload's own size
/// prefix and root offset.
pub open spec fn spec_payload_tagged(payload: Seq<u8>, content: StreamContent) -> bool {
    payload.len() >= 12 && payload.subrange(8, 12) == content.spec_identifier_bytes()
}

/// What one packet record comes to under a session's compression mode and
/// registry: the decompressed payload, or the first issue that rejects
/// the record — an unknown mode before decoding, then the codec, then the
/// registry lookup, then the tag cross-check.
pub open spec fn spec_packet_outcome(
    c: Compression,
    registry: Map<u32, Stream>,
    stream_id: u32,
    raw: Seq<u8>,
) -> Result<Seq<u8>, PacketIssue> {
    if c is Unrecognized {
        Err(PacketIssue::UnknownCompression)
    } else {
        match spec_decompressed(c, raw) {
            Option::None => Err(PacketIssue::DecodeFailed),
            Option::Some(payload) => if !registry.contains_key(stream_id) {
                Err(PacketIssue::UnknownStreamId)
            } else if !spec_payload_tagged(payload, registry[stream_id].content) {
                Err(PacketIssue::IdentifierMismatch)
            } else {
                Ok(payload)
            },
        }
    }
}

/// Whether `r` reports the packet outcome faithfully: the payload and its
/// stream id on success, and the exact failure value for each issue; a
/// codec failure carries the codec's own words.
pub open spec fn spec_take_result(
    c: Compression,
    registry: Map<u32, Stream>,
    stream_id: u32,
    raw: Seq<u8>,
    r: Result<Packet, ParseError>,
) -> bool {
    match spec_packet_outcome(c, registry, stream_id, raw) {
        Ok(payload) => r matches Ok(p) && p.stream_id == stream_id && p.buffer@ == payload,
        Err(PacketIssue::UnknownCompression) => r matches Err(ParseError::General(m)) && m@
            == "unknown compression algorithm"@,
        Err(PacketIssue::DecodeFailed) => r matches Err(ParseError::Io(_)),
        Err(PacketIssue::UnknownStreamId) => r matches Err(ParseError::General(m)) && m@
            == "unknown stream id"@,
        Err(PacketIssue::IdentifierMismatch) => r matches Err(ParseError::General(m)) && m@
            == "the stream id and the identifier do not match"@,
    }
}

/// A record naming a stream id the registry does not hold is rejected
/// with the unknown-stream-id issue — under every known compression mode,
/// whatever its payload decodes to.
pub proof fn lemma_unknown_stream_id_rejected(
    c: Compression,
    registry: Map<u32, Stream>,
    stream_id: u32,
    raw: Seq<u8>,
)
    requires
        !(c is Unrecognized),
        spec_decompressed(c, raw) is Some,
        !registry.contains_key(stream_id),
    ensures
        spec_packet_outcome(c, registry, stream_id, raw) == Err::<Seq<u8>, PacketIssue>(
            PacketIssue::UnknownStreamId,
        ),
{
}

/// A record whose decompressed payload does not carry its declared
/// kind's embedded tag is rejected with the mismatch issue — under every
/// known compression mode.
pub proof fn lemma_tag_mismatch_rejected(
    c: Compression,
    registry: Map<u32, Stream>,
    stream_id: u32,
    raw: Seq<u8>,
)
    requires
        !(c is Unrecognized),
        spec_decompressed(c, raw) is Some,
        registry.contains_key(stream_id),
        !spec_payload_tagged(spec_decompressed(c, raw).unwrap(), registry[stream_id].content),
    ensures
        spec_packet_outcome(c, registry, stream_id, raw) == Err::<Seq<u8>, PacketIssue>(
            PacketIssue::IdentifierMismatch,
        ),
{
}

/// The total framed size of a run of packet records: eight header bytes
/// and then the payload, for each record in turn.
pub open spec fn spec_total_framed(lens: Seq<int>) -> int
    decreases lens.len(),
{
    if lens.len() == 0 {
        0
    } else {
        8 + lens[0] + spec_total_framed(lens.drop_first())
    }
}

/// The position a session stands on after taking records of the given
/// payload lengths one by one from `start`, each advancing the position
/// by its framed size as `take_record` ensures.
pub open spec fn spec_position_after(start: int, lens: Seq<int>) -> int
    decreases lens.len(),
{
    if lens.len() == 0 {
        start
    } else {
        spec_position_after(start + 8 + lens[0], lens.drop_first())
    }
}

/// A run of records lands exactly its total framed size past the start:
/// a header that declares the end of data there is reached precisely
/// after the last record.
pub proof fn lemma_position_after_run(start: int, lens: Seq<int>)
    ensures
        spec_position_after(start, lens) == start + spec_total_framed(lens),
    decreases lens.len(),
{
    if lens.len() > 0 {
        lemma_position_after_run(start + 8 + lens[0], lens.drop_first());
    }
}

/// A run's total framed size is never negative.
pub proof fn lemma_total_framed_nonneg(lens: Seq<int>)
    requires
        forall|i: int| 0 <= i < lens.len() ==> lens[i] >= 0,
    ensures
        spec_total_framed(lens) >= 0,
    decreases lens.len(),
{
    if lens.len() > 0 {
        assert(forall|i: int|
            0 <= i < lens.drop_first().len() ==> lens.drop_first()[i] == lens[i + 1]);
        lemma_total_framed_nonneg(lens.drop_first());
    }
}

/// Every proper prefix of a run stands strictly before the full run's
/// total: the declared end of data is not reached before the last
/// record.
pub proof fn lemma_prefix_framed_strictly_less(lens: Seq<int>, k: int)
    requires
        0 <= k < lens.len(),
        forall|i: int| 0 <= i < lens.len() ==> lens[i] >= 0,
    ensures
        spec_total_framed(lens.take(k)) < spec_total_framed(lens),
    decreases k,
{
    let rest = lens.drop_first();
    assert(forall|i: int| 0 <= i < rest.len() ==> rest[i] == lens[i + 1]);
    if k == 0 {
        assert(lens.take(0) =~= Seq::<int>::empty());
        lemma_total_framed_nonneg(rest);
    } else {
        lemma_prefix_framed_strictly_less(rest, k - 1);
        assert(lens.take(k).drop_first() =~= rest.take(k - 1));
        assert(spec_total_framed(lens.take(k)) == 8 + lens[0] + spec_total_framed(
            rest.take(k - 1),
        ));
    }
}

/// Header parse followed by a run of valid records yields exactly that
/// many packets and then clean completion: with the declared end of data
/// standing the run's total framed size past the session's position —
/// each record advancing the position as `take_record` ensures — the end
/// is reached after the last record, and after no proper prefix of the
/// run.
pub proof fn lemma_session_completes_after_run(d: Decoder, lens: Seq<int>, k: int)
    requires
        d.wf(),
        d.file_data_position == d.position + spec_total_framed(lens),
        forall|i: int| 0 <= i < lens.len() ==> lens[i] >= 0,
        0 <= k < lens.len(),
    ensures
        d.file_data_position > -1,
        spec_position_after(d.position as int, lens) == d.file_data_position,
        spec_position_after(d.position as int, lens.take(k)) != d.file_data_position,
{
    lemma_total_framed_nonneg(lens);
    lemma_position_after_run(d.position as int, lens);
    lemma_position_after_run(d.position as int, lens.take(k));
    lemma_prefix_framed_strictly_less(lens, k);
}

fn payload_tagged(payload: &Vec<u8>, content: StreamContent) -> (r: bool)
    ensures
        r == spec_payload_tagged(payload@, content),
{
    if payload.len() < 12 {
        return false;
    }
    let expected = content.identifier_bytes();
    proof {
        assert(payload@.subrange(8, 12)[0] == payload@[8]);
        assert(payload@.subrange(8, 12)[1] == payload@[9]);
        assert(payload@.subrange(8, 12)[2] == payload@[10]);
        assert(payload@.subrange(8, 12)[3] == payload@[11]);
    }
    let r = payload[8] == expected[0] && payload[9] == expected[1] && payload[10] == expected[2]
        && payload[11] == expected[3];
    proof {
        if r {
            assert(payload@.subrange(8, 12) =~= content.spec_identifier_bytes());
        }
    }
    r
}

/// The three reads that frame one packet record, in order.
#[derive(Copy, Clone, PartialEq, Eq, Structural, Debug)]
pub enum RecordReadStage {
    /// The four stream-id bytes, before the record has begun.
    StreamId,
    /// The four length bytes, after the stream id was consumed.
    Length,
    /// The payload bytes themselves.
    Payload,
}

/// Decides what a failed framing read means. A failure before the record
/// has begun — at the stream-id read, a clean disconnect included — is
/// the end of the sequence, never an error. Once the stream id has been
/// consumed, a failure reading the length or the payload is surfaced as
/// an I/O failure carrying the read error's text, never swallowed.
pub fn classify_read_failure(stage: RecordReadStage, message: String) -> (r: Option<ParseError>)
    ensures
        stage is StreamId <==> r is None,
        !(stage is StreamId) ==> (r matches Some(e) && e matches ParseError::Io(m) && m@
            == message@),
{
    match stage {
        RecordReadStage::StreamId => Option::None,
        RecordReadStage::Length | RecordReadStage::Payload => Option::Some(
            ParseError::Io(message),
        ),
    }
}

/// Validates the preamble a file source must start with. The bytes must
/// be exactly the magic number; anything else — short, long or different
/// — is the wrong-magic failure, before any header byte is looked at.
pub fn check_magic(bytes: &Vec<u8>) -> (r: Result<(), ParseError>)
    ensures
        r.is_ok() <==> bytes@ == crate::wire::spec_magic(),
        r matches Err(e) ==> (e matches ParseError::General(m) && m@
            == "the file does not contain AEDAT4 data (wrong magic number)"@),
{
    let magic = crate::wire::magic_number();
    if crate::wire::bytes_eq(bytes, &magic) {
        Ok(())
    } else {
        Err(
            ParseError::General(
                "the file does not contain AEDAT4 data (wrong magic number)".to_owned(),
            ),
        )
    }
}

/// The decoder session. It is built once from a source's header, then
/// driven record by record; the registry and the compression mode never
/// change after construction, and `position` counts every framed byte the
/// source has yielded.
#[derive(Debug)]
pub struct Decoder {
    /// The stream registry: each declared stream under its id. Read-only
    /// after construction.
    pub id_to_stream: HashMap<u32, Stream>,
    /// Bytes consumed so far: the preamble, the framed header record, and
    /// every framed packet record taken.
    pub position: i64,
    /// The session's compression mode, fixed at construction.
    pub compression: Compression,
    /// The byte offset at which the packet section ends, or a negative
    /// sentinel where no end is known.
    pub file_data_position: i64,
}

/// What constructing a decoder from a header record's body must come to,
/// for every input: each failure case pins its error, and a header that
/// parses, carries a valid UTF-8 description within the markup cap whose
/// text is a well-formed document, and whose document builds a registry,
/// owes a constructed decoder — with that exact registry, the declared compression mode, the
/// position just past the header (preamble included for a seekable
/// source), and the declared end of data, unknown for a streaming source.
pub open spec fn spec_header_outcome(
    body: Seq<u8>,
    seekable: bool,
    r: Result<Decoder, ParseError>,
) -> bool {
    match spec_parse_ioheader(body) {
        Option::None => r matches Err(ParseError::FlatBuffer(_)),
        Option::Some(h) => match h.description {
            Option::None => r matches Err(ParseError::General(m)) && m@
                == "the description is empty"@,
            Option::Some(d) => if !vstd::utf8::valid_utf8(d) {
                r matches Err(ParseError::Utf8(_))
            } else if spec_count_byte(d, '<' as u8) > MARKUP_LIMIT as int {
                r matches Err(ParseError::RoxmlTree(m)) && m@
                    == "the description holds too much markup to parse safely"@
            } else {
                match spec_xml_document(vstd::utf8::decode_utf8(d)) {
                    Option::None => r matches Err(ParseError::RoxmlTree(_)),
                    Option::Some(root) => match spec_build_registry(root) {
                        Err(issue) => r matches Err(e) && spec_issue_error_matches(issue, e),
                        Ok(registry) => r matches Ok(dec) && {
                            &&& dec.wf()
                            &&& dec.id_to_stream@ == registry
                            &&& dec.id_to_stream@.len() > 0
                            &&& dec.compression == spec_compression_of_code(h.compression_code)
                            &&& dec.position == (if seekable {
                                18int
                            } else {
                                4int
                            }) + body.len()
                            &&& dec.file_data_position == (if seekable {
                                h.file_data_position as int
                            } else {
                                -1int
                            })
                        },
                    },
                }
            },
        },
    }
}

impl Decoder {
    /// The session's running state never counts bytes backwards.
    pub open spec fn wf(self) -> bool {
        self.position >= 0
    }

    /// Builds the session for a seekable file source, from the header
    /// record's body: the bytes after the preamble and the record's own
    /// four length bytes. The declared end of data is taken from the
    /// header.
    pub fn new_from_file_header(header_body: &Vec<u8>) -> (r: Result<Decoder, ParseError>)
        requires
            header_body@.len() <= u32::MAX,
        ensures
            spec_header_outcome(header_body@, true, r),
    {
        Self::from_header_body(header_body, true)
    }

    /// Builds the session for a streaming (socket) source, from the
    /// header record's body. No preamble was read and no end of data is
    /// known.
    pub fn new_from_stream_header(header_body: &Vec<u8>) -> (r: Result<Decoder, ParseError>)
        requires
            header_body@.len() <= u32::MAX,
        ensures
            spec_header_outcome(header_body@, false, r),
    {
        Self::from_header_body(header_body, false)
    }

    fn from_header_body(header_body: &Vec<u8>, seekable: bool) -> (r: Result<Decoder, ParseError>)
        requires
            header_body@.len() <= u32::MAX,
        ensures
            spec_header_outcome(header_body@, seekable, r),
    {
        let header = match parse_ioheader(header_body) {
            Err(e) => {
                return Err(e);
            },
            Ok(h) => h,
        };
        let description = match header.description {
            Option::None => {
                return Err(ParseError::General("the description is empty".to_owned()));
            },
            Option::Some(d) => d,
        };
        let text = match utf8_string(&description) {
            Err(m) => {
                return Err(ParseError::Utf8(m));
            },
            Ok(t) => t,
        };
        proof {
            vstd::utf8::encode_utf8_decode_utf8(text@);
        }
        if count_byte(&description, '<' as u8) > MARKUP_LIMIT {
            return Err(
                ParseError::RoxmlTree(
                    "the description holds too much markup to parse safely".to_owned(),
                ),
            );
        }
        let root = match parse_xml_document(text.as_str()) {
            Err(m) => {
                return Err(ParseError::RoxmlTree(m));
            },
            Ok(root) => root,
        };
        let registry = match build_registry(&root) {
            Err(issue) => {
                return Err(issue_error(issue));
            },
            Ok(m) => m,
        };
        let position: i64 = if seekable {
            18 + (header_body.len() as i64)
        } else {
            4 + (header_body.len() as i64)
        };
        let file_data_position: i64 = if seekable {
            header.file_data_position
        } else {
            -1
        };
        Ok(
            Decoder {
                id_to_stream: registry,
                position,
                compression: compression_of_code(header.compression_code),
                file_data_position,
            },
        )
    }

    /// Whether the declared end of the packet section is reached: true
    /// exactly where an end is known and the position stands on it. The
    /// sequence is then exhausted — clean completion, no error.
    pub fn reached_data_end(&self) -> (r: bool)
        ensures
            r == (self.file_data_position > -1 && self.position == self.file_data_position),
    {
        self.file_data_position > -1 && self.position == self.file_data_position
    }

    /// Takes one packet record: the stream id and the raw framed payload
    /// the embedding program read. Advances the position by the record's
    /// framed size — eight header bytes plus the payload — whatever the
    /// outcome; then decompresses under the session's fixed mode, looks
    /// the stream id up, and cross-checks the payload's embedded tag
    /// against the declared kind.
    pub fn take_record(&mut self, stream_id: u32, raw: Vec<u8>) -> (r: Result<Packet, ParseError>)
        requires
            old(self).wf(),
            old(self).position + 8 + raw@.len() <= i64::MAX,
        ensures
            final(self).wf(),
            final(self).id_to_stream == old(self).id_to_stream,
            final(self).compression == old(self).compression,
            final(self).file_data_position == old(self).file_data_position,
            final(self).position == old(self).position + 8 + raw@.len(),
            spec_take_result(
                old(self).compression,
                old(self).id_to_stream@,
                stream_id,
                raw@,
                r,
            ),
    {
        let len = raw.len();
        self.position = self.position + 8 + (len as i64);
        let payload_result: Result<Vec<u8>, String> = match self.compression {
            Compression::Uncompressed => Ok(raw),
            Compression::Lz4 | Compression::Lz4High => lz4_decompress(&raw),
            Compression::Zstd | Compression::ZstdHigh => zstd_decompress(&raw),
            Compression::Unrecognized(_) => {
                return Err(ParseError::General("unknown compression algorithm".to_owned()));
            },
        };
        let payload = match payload_result {
            Err(m) => {
                return Err(ParseError::Io(m));
            },
            Ok(p) => p,
        };
        let stream = match self.id_to_stream.get(&stream_id) {
            Option::None => {
                return Err(ParseError::General("unknown stream id".to_owned()));
            },
            Option::Some(s) => s,
        };
        if !payload_tagged(&payload, stream.content) {
            return Err(
                ParseError::General("the stream id and the identifier do not match".to_owned()),
            );
        }
        Ok(Packet { buffer: payload, stream_id })
    }
}

} // verus!
