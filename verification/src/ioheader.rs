//! The length-prefixed header message at the start of the container. It is
//! a schema-encoded record — a root offset, a table, and a vtable of field
//! offsets — carrying three fields: the compression code, the byte offset
//! where the packet section ends, and the description text. This reader
//! validates every offset and length against the record before following
//! it, so a malformed record is an error, never an out-of-bounds read.

use vstd::prelude::*;
use crate::error::ParseError;
use crate::wire::{
    read_le16, read_le32, read_le32_signed, read_le64_signed, spec_le16, spec_le32,
    spec_le32_signed, spec_le64_signed,
};

verus! {

/// The three fields of the header message, as plain values.
pub struct IoHeader {
    /// The compression code; `0` where the record leaves the field out.
    pub compression_code: u32,
    /// The byte offset (from the start of the header record) at which the
    /// packet section ends; `-1`, the unknown sentinel, where the record
    /// leaves the field out.
    pub file_data_position: i64,
    /// The description text's bytes, where the record has one.
    pub description: Option<Vec<u8>>,
}

/// The header message's fields as mathematical values.
pub struct SpecIoHeader {
    pub compression_code: u32,
    pub file_data_position: i64,
    pub description: Option<Seq<u8>>,
}

/// The field offset the vtable holds in the given slot, or `0` — the
/// absent-field marker — where the vtable is too short to hold the slot.
pub open spec fn spec_vtable_slot(b: Seq<u8>, vt: int, vt_size: int, slot: int) -> int {
    if 4 + 2 * slot + 2 <= vt_size {
        spec_le16(b, vt + 4 + 2 * slot)
    } else {
        0
    }
}

/// The header message `b` holds, or nothing where an offset or length
/// does not fit the record. The record's layout: a 32-bit root offset to
/// the table; at the table a signed 32-bit offset back to its vtable; the
/// vtable's first 16-bit word is its own size, and its slots hold the
/// table-relative offsets of the fields, `0` marking an absent field that
/// takes its default. Slot 0 is the compression code (32 bits, default 0),
/// slot 1 the end-of-data position (signed 64 bits, default -1), slot 2
/// the description: an offset to a length-prefixed byte string.
pub open spec fn spec_parse_ioheader(b: Seq<u8>) -> Option<SpecIoHeader> {
    if b.len() < 4 {
        Option::None
    } else {
        let t = spec_le32(b, 0);
        if t + 4 > b.len() {
            Option::None
        } else {
            let vt = t - spec_le32_signed(b, t);
            if vt < 0 || vt + 4 > b.len() {
                Option::None
            } else {
                let vt_size = spec_le16(b, vt);
                if vt_size < 4 || vt + vt_size > b.len() {
                    Option::None
                } else {
                    let off0 = spec_vtable_slot(b, vt, vt_size, 0);
                    let off1 = spec_vtable_slot(b, vt, vt_size, 1);
                    let off2 = spec_vtable_slot(b, vt, vt_size, 2);
                    if off0 != 0 && t + off0 + 4 > b.len() {
                        Option::None
                    } else if off1 != 0 && t + off1 + 8 > b.len() {
                        Option::None
                    } else {
                        let code = if off0 == 0 {
                            0
                        } else {
                            spec_le32(b, t + off0)
                        };
                        let fdp = if off1 == 0 {
                            -1
                        } else {
                            spec_le64_signed(b, t + off1)
                        };
                        if off2 == 0 {
                            Option::Some(
                                SpecIoHeader {
                                    compression_code: code as u32,
                                    file_data_position: fdp as i64,
                                    description: Option::None,
                                },
                            )
                        } else if t + off2 + 4 > b.len() {
                            Option::None
                        } else {
                            let p = t + off2 + spec_le32(b, t + off2);
                            if p + 4 > b.len() {
                                Option::None
                            } else {
                                let slen = spec_le32(b, p);
                                if p + 4 + slen > b.len() {
                                    Option::None
                                } else {
                                    Option::Some(
                                        SpecIoHeader {
                                            compression_code: code as u32,
                                            file_data_position: fdp as i64,
                                            description: Option::Some(
                                                b.subrange(p + 4, p + 4 + slen),
                                            ),
                                        },
                                    )
                                }
                            }
                        }
                    }
                }
            }
        }
    }
}

/// Whether the plain-value fields equal the mathematical ones.
pub open spec fn spec_header_matches(h: IoHeader, sh: SpecIoHeader) -> bool {
    &&& h.compression_code == sh.compression_code
    &&& h.file_data_position == sh.file_data_position
    &&& match (h.description, sh.description) {
        (Option::Some(d), Option::Some(sd)) => d@ == sd,
        (Option::None, Option::None) => true,
        _ => false,
    }
}

fn malformed() -> (e: ParseError)
    ensures
        e matches ParseError::FlatBuffer(m) && m@ == "malformed header message"@,
{
    ParseError::FlatBuffer("malformed header message".to_owned())
}

fn vtable_slot(b: &Vec<u8>, vt: usize, vt_size: u16, slot: u16) -> (r: u16)
    requires
        vt + vt_size <= b@.len(),
        4 <= vt_size,
        slot < 16,
    ensures
        r == spec_vtable_slot(b@, vt as int, vt_size as int, slot as int),
{
    let n = b.len();
    proof {
        assert(vt + vt_size <= n);
    }
    let s = slot as usize;
    if 4 + 2 * s + 2 <= vt_size as usize {
        read_le16(b, vt + 4 + 2 * s)
    } else {
        0
    }
}

/// Reads the header message's three fields out of its bytes, validating
/// every offset and length; a record that does not fit itself is a
/// malformed-header error.
pub fn parse_ioheader(b: &Vec<u8>) -> (r: Result<IoHeader, ParseError>)
    ensures
        r.is_ok() == spec_parse_ioheader(b@) is Some,
        r matches Ok(h) ==> (spec_parse_ioheader(b@) matches Some(sh) && spec_header_matches(
            h,
            sh,
        )),
        r matches Err(e) ==> (e matches ParseError::FlatBuffer(m) && m@
            == "malformed header message"@),
{
    let n = b.len();
    let n64 = n as u64;
    if n < 4 {
        return Err(malformed());
    }
    let t64 = read_le32(b, 0) as u64;
    if t64 + 4 > n64 {
        return Err(malformed());
    }
    let t = t64 as usize;
    let soff = read_le32_signed(b, t);
    let vt_signed = (t as i64) - soff;
    if vt_signed < 0 || (vt_signed as u64) + 4 > n64 {
        return Err(malformed());
    }
    let vt = vt_signed as usize;
    let vt_size = read_le16(b, vt);
    if vt_size < 4 || (vt as u64) + (vt_size as u64) > n64 {
        return Err(malformed());
    }
    let off0 = vtable_slot(b, vt, vt_size, 0) as u64;
    let off1 = vtable_slot(b, vt, vt_size, 1) as u64;
    let off2 = vtable_slot(b, vt, vt_size, 2) as u64;
    if off0 != 0 && t64 + off0 + 4 > n64 {
        return Err(malformed());
    }
    if off1 != 0 && t64 + off1 + 8 > n64 {
        return Err(malformed());
    }
    let code: u32 = if off0 == 0 {
        0
    } else {
        read_le32(b, (t64 + off0) as usize)
    };
    let fdp: i64 = if off1 == 0 {
        -1
    } else {
        read_le64_signed(b, (t64 + off1) as usize)
    };
    if off2 == 0 {
        return Ok(IoHeader { compression_code: code, file_data_position: fdp, description: Option::None });
    }
    if t64 + off2 + 4 > n64 {
        return Err(malformed());
    }
    let p0 = t64 + off2;
    let rel = read_le32(b, p0 as usize) as u64;
    let p = p0 + rel;
    if p + 4 > n64 {
        return Err(malformed());
    }
    let slen = read_le32(b, p as usize) as u64;
    if p + 4 + slen > n64 {
        return Err(malformed());
    }
    let start = (p + 4) as usize;
    let count = slen as usize;
    let mut description: Vec<u8> = Vec::new();
    let mut i: usize = 0;
    while i < count
        invariant
            i <= count,
            n == b@.len(),
            start + count <= b@.len(),
            description@ =~= b@.subrange(start as int, start + i),
        decreases count - i,
    {
        description.push(b[start + i]);
        proof {
            assert(description@ =~= b@.subrange(start as int, start + i + 1));
        }
        i += 1;
    }
    Ok(
        IoHeader {
            compression_code: code,
            file_data_position: fdp,
            description: Option::Some(description),
        },
    )
}

} // verus!
