//! Little-endian scalar readers over byte buffers, and the magic preamble
//! a file source must start with. All multi-byte integers of the container
//! are little-endian.

use vstd::prelude::*;

verus! {

/// The value of the two bytes at `i` read as an unsigned little-endian
/// 16-bit integer.
pub open spec fn spec_le16(b: Seq<u8>, i: int) -> int {
    b[i] + 0x100 * b[i + 1]
}

/// The value of the four bytes at `i` read as an unsigned little-endian
/// 32-bit integer.
pub open spec fn spec_le32(b: Seq<u8>, i: int) -> int {
    b[i] + 0x100 * b[i + 1] + 0x1_0000 * b[i + 2] + 0x100_0000 * b[i + 3]
}

/// The value of the eight bytes at `i` read as an unsigned little-endian
/// 64-bit integer.
pub open spec fn spec_le64(b: Seq<u8>, i: int) -> int {
    spec_le32(b, i) + 0x1_0000_0000 * spec_le32(b, i + 4)
}

/// The value of the four bytes at `i` read as a little-endian two's
/// complement signed 32-bit integer.
pub open spec fn spec_le32_signed(b: Seq<u8>, i: int) -> int {
    if spec_le32(b, i) >= 0x8000_0000 {
        spec_le32(b, i) - 0x1_0000_0000
    } else {
        spec_le32(b, i)
    }
}

/// The value of the eight bytes at `i` read as a little-endian two's
/// complement signed 64-bit integer.
pub open spec fn spec_le64_signed(b: Seq<u8>, i: int) -> int {
    if spec_le64(b, i) >= 0x8000_0000_0000_0000 {
        spec_le64(b, i) - 0x1_0000_0000_0000_0000
    } else {
        spec_le64(b, i)
    }
}

pub fn read_le16(b: &Vec<u8>, i: usize) -> (r: u16)
    requires
        i + 2 <= b@.len(),
    ensures
        r == spec_le16(b@, i as int),
{
    let n = b.len();
    proof {
        assert(i + 2 <= n);
    }
    b[i] as u16 + 0x100 * (b[i + 1] as u16)
}

pub fn read_le32(b: &Vec<u8>, i: usize) -> (r: u32)
    requires
        i + 4 <= b@.len(),
    ensures
        r == spec_le32(b@, i as int),
{
    let n = b.len();
    proof {
        assert(i + 4 <= n);
    }
    b[i] as u32 + 0x100 * (b[i + 1] as u32) + 0x1_0000 * (b[i + 2] as u32) + 0x100_0000 * (b[i
        + 3] as u32)
}

pub fn read_le64(b: &Vec<u8>, i: usize) -> (r: u64)
    requires
        i + 8 <= b@.len(),
    ensures
        r == spec_le64(b@, i as int),
{
    let n = b.len();
    proof {
        assert(i + 8 <= n);
    }
    read_le32(b, i) as u64 + 0x1_0000_0000 * (read_le32(b, i + 4) as u64)
}

pub fn read_le32_signed(b: &Vec<u8>, i: usize) -> (r: i64)
    requires
        i + 4 <= b@.len(),
    ensures
        r == spec_le32_signed(b@, i as int),
{
    let u = read_le32(b, i) as i64;
    if u >= 0x8000_0000 {
        u - 0x1_0000_0000
    } else {
        u
    }
}

pub fn read_le64_signed(b: &Vec<u8>, i: usize) -> (r: i64)
    requires
        i + 8 <= b@.len(),
    ensures
        r == spec_le64_signed(b@, i as int),
{
    let u = read_le64(b, i);
    if u >= 0x8000_0000_0000_0000 {
        let d = u - 0x8000_0000_0000_0000;
        (d as i64) + i64::MIN
    } else {
        u as i64
    }
}

/// The 14 bytes every file source must start with: the ASCII text
/// `#!AER-DAT4.0` followed by a carriage return and a line feed.
pub open spec fn spec_magic() -> Seq<u8> {
    seq![
        '#' as u8,
        '!' as u8,
        'A' as u8,
        'E' as u8,
        'R' as u8,
        '-' as u8,
        'D' as u8,
        'A' as u8,
        'T' as u8,
        '4' as u8,
        '.' as u8,
        '0' as u8,
        13u8,
        10u8,
    ]
}

/// The magic preamble as bytes, for the embedding program to read against.
pub fn magic_number() -> (r: Vec<u8>)
    ensures
        r@ == spec_magic(),
        r@.len() == 14,
{
    let v: Vec<u8> = vec![
        '#' as u8,
        '!' as u8,
        'A' as u8,
        'E' as u8,
        'R' as u8,
        '-' as u8,
        'D' as u8,
        'A' as u8,
        'T' as u8,
        '4' as u8,
        '.' as u8,
        '0' as u8,
        13u8,
        10u8,
    ];
    proof {
        assert(v@ =~= spec_magic());
    }
    v
}

/// How many times the byte `x` occurs in `b`.
pub open spec fn spec_count_byte(b: Seq<u8>, x: u8) -> int
    decreases b.len(),
{
    if b.len() == 0 {
        0
    } else {
        spec_count_byte(b.drop_last(), x) + if b.last() == x {
            1int
        } else {
            0int
        }
    }
}

/// Counts the occurrences of the byte `x` in `b`.
pub fn count_byte(b: &Vec<u8>, x: u8) -> (r: usize)
    ensures
        r == spec_count_byte(b@, x),
{
    let n = b.len();
    let mut count: usize = 0;
    let mut i: usize = 0;
    while i < n
        invariant
            i <= n,
            n == b@.len(),
            count <= i,
            count == spec_count_byte(b@.take(i as int), x),
        decreases n - i,
    {
        proof {
            let p = b@.take(i + 1);
            assert(p.drop_last() =~= b@.take(i as int));
            assert(p.last() == b@[i as int]);
        }
        if b[i] == x {
            count += 1;
        }
        i += 1;
    }
    proof {
        assert(b@.take(n as int) =~= b@);
    }
    count
}

/// Compares two byte buffers for equality, element by element.
pub fn bytes_eq(a: &Vec<u8>, b: &Vec<u8>) -> (r: bool)
    ensures
        r == (a@ == b@),
{
    if a.len() != b.len() {
        return false;
    }
    let mut i: usize = 0;
    while i < a.len()
        invariant
            i <= a@.len(),
            a@.len() == b@.len(),
            forall|j: int| 0 <= j < i ==> a@[j] == b@[j],
        decreases a@.len() - i,
    {
        if a[i] != b[i] {
            return false;
        }
        i += 1;
    }
    proof {
        assert(a@ =~= b@);
    }
    true
}

} // verus!
