//! Character-level text utilities: string comparison and decimal parsing,
//! with the exact acceptance rules of the standard library's integer parser.

use vstd::prelude::*;
use vstd::string::StrSliceExecFns;

verus! {

/// Compares two string slices character by character.
pub fn str_eq(a: &str, b: &str) -> (r: bool)
    ensures
        r == (a@ == b@),
{
    let a_len = a.unicode_len();
    let b_len = b.unicode_len();
    if a_len != b_len {
        return false;
    }
    let mut i: usize = 0;
    while i < a_len
        invariant
            i <= a_len,
            a_len == a@.len(),
            a_len == b@.len(),
            forall|j: int| 0 <= j < i ==> a@[j] == b@[j],
        decreases a_len - i,
    {
        if a.get_char(i) != b.get_char(i) {
            return false;
        }
        i += 1;
    }
    proof {
        assert(a@ =~= b@);
    }
    true
}

/// Relies on std's str::from_utf8: it succeeds exactly on valid UTF-8
/// and yields the text those bytes spell, copied out as an owned string;
/// a failure is the error's text.
#[verifier::external_body]
pub(crate) fn utf8_string(bytes: &Vec<u8>) -> (r: Result<String, String>)
    ensures
        r.is_ok() == vstd::utf8::valid_utf8(bytes@),
        r matches Ok(s) ==> vstd::utf8::encode_utf8(s@) == bytes@,
{
    match std::str::from_utf8(bytes.as_slice()) {
        Ok(s) => Ok(s.to_string()),
        Err(error) => Err(format!("{}", error)),
    }
}

/// Whether `c` is a decimal digit.
pub open spec fn spec_is_digit(c: char) -> bool {
    48 <= c as int <= 57
}

/// Whether every character of `s` is a decimal digit.
pub open spec fn spec_all_digits(s: Seq<char>) -> bool {
    forall|i: int| 0 <= i < s.len() ==> spec_is_digit(s[i])
}

/// The value of a digit string, most significant digit first.
pub open spec fn spec_digits_value(s: Seq<char>) -> int
    decreases s.len(),
{
    if s.len() == 0 {
        0
    } else {
        spec_digits_value(s.drop_last()) * 10 + (s.last() as int - 48)
    }
}

/// The digits of a decimal numeral: the text with one optional leading
/// plus sign removed.
pub open spec fn spec_decimal_digits(s: Seq<char>) -> Seq<char> {
    if s.len() > 0 && s[0] == '+' {
        s.drop_first()
    } else {
        s
    }
}

/// The value a decimal numeral denotes as an unsigned 32-bit integer, or
/// nothing where the standard library's integer parser would reject it: an
/// empty digit string, a character that is no digit, or a value above the
/// type's maximum.
pub open spec fn spec_parse_u32(s: Seq<char>) -> Option<u32> {
    let t = spec_decimal_digits(s);
    if t.len() == 0 || !spec_all_digits(t) {
        Option::None
    } else if spec_digits_value(t) > u32::MAX {
        Option::None
    } else {
        Option::Some(spec_digits_value(t) as u32)
    }
}

/// The same acceptance rule for unsigned 16-bit integers.
pub open spec fn spec_parse_u16(s: Seq<char>) -> Option<u16> {
    let t = spec_decimal_digits(s);
    if t.len() == 0 || !spec_all_digits(t) {
        Option::None
    } else if spec_digits_value(t) > u16::MAX {
        Option::None
    } else {
        Option::Some(spec_digits_value(t) as u16)
    }
}

/// A digit string's value is not negative.
proof fn lemma_digits_value_nonneg(s: Seq<char>)
    requires
        spec_all_digits(s),
    ensures
        spec_digits_value(s) >= 0,
    decreases s.len(),
{
    if s.len() > 0 {
        assert(spec_all_digits(s.drop_last()));
        lemma_digits_value_nonneg(s.drop_last());
    }
}

/// Extending a digit string cannot lower its value.
proof fn lemma_digits_value_prefix(s: Seq<char>, k: int)
    requires
        spec_all_digits(s),
        0 <= k <= s.len(),
    ensures
        spec_digits_value(s.take(k)) <= spec_digits_value(s),
    decreases s.len() - k,
{
    if k < s.len() {
        lemma_digits_value_prefix(s, k + 1);
        let p = s.take(k + 1);
        assert(p.drop_last() =~= s.take(k));
        lemma_digits_value_nonneg(s.take(k));
        assert(spec_digits_value(s.take(k)) <= spec_digits_value(p));
    } else {
        assert(s.take(k) =~= s);
    }
}

/// Parses a decimal numeral as an unsigned 32-bit integer, accepting and
/// rejecting exactly what the standard library's parser does.
pub fn parse_u32(s: &str) -> (r: Option<u32>)
    ensures
        r == spec_parse_u32(s@),
{
    let n = s.unicode_len();
    let mut i: usize = 0;
    if n > 0 && s.get_char(0) == '+' {
        i = 1;
    }
    let ghost start = i as int;
    let ghost t = spec_decimal_digits(s@);
    proof {
        assert(t =~= s@.subrange(start, n as int));
    }
    if i == n {
        return Option::None;
    }
    let mut acc: u32 = 0;
    while i < n
        invariant
            0 <= start <= i <= n,
            start < n,
            n == s@.len(),
            t == spec_decimal_digits(s@),
            t == s@.subrange(start, n as int),
            t.len() == n - start,
            spec_all_digits(s@.subrange(start, i as int)),
            acc == spec_digits_value(s@.subrange(start, i as int)),
        decreases n - i,
    {
        let c = s.get_char(i);
        let cv = c as u32;
        if cv < 48 || cv > 57 {
            proof {
                assert(s@.subrange(start, n as int)[i - start] == s@[i as int]);
                assert(!spec_is_digit(t[i - start]));
                assert(!spec_all_digits(t));
            }
            return Option::None;
        }
        let d = cv - 48;
        proof {
            let p = s@.subrange(start, i + 1);
            assert(p.drop_last() =~= s@.subrange(start, i as int));
            assert(p.last() == s@[i as int]);
            assert(spec_digits_value(p) == acc * 10 + d);
            assert(spec_all_digits(p)) by {
                assert(forall|j: int|
                    0 <= j < p.len() - 1 ==> p[j] == s@.subrange(start, i as int)[j]);
            }
        }
        if acc > (u32::MAX - d) / 10 {
            proof {
                let p = s@.subrange(start, i + 1);
                assert(spec_digits_value(p) == acc * 10 + d);
                assert(acc * 10 + d > u32::MAX) by (nonlinear_arith)
                    requires
                        acc > (u32::MAX - d) / 10,
                        d < 10,
                        acc >= 0,
                ;
                if spec_all_digits(t) {
                    assert(p =~= t.take(i + 1 - start));
                    lemma_digits_value_prefix(t, i + 1 - start);
                }
            }
            return Option::None;
        }
        proof {
            assert(acc * 10 + d <= u32::MAX) by (nonlinear_arith)
                requires
                    acc <= (u32::MAX - d) / 10,
                    0 <= d < 10,
                    acc >= 0,
            ;
        }
        acc = acc * 10 + d;
        i += 1;
    }
    proof {
        assert(s@.subrange(start, i as int) =~= t);
    }
    Option::Some(acc)
}

/// Parses a decimal numeral as an unsigned 16-bit integer, accepting and
/// rejecting exactly what the standard library's parser does.
pub fn parse_u16(s: &str) -> (r: Option<u16>)
    ensures
        r == spec_parse_u16(s@),
{
    let wide = parse_u32(s);
    proof {
        let t = spec_decimal_digits(s@);
        if t.len() > 0 && spec_all_digits(t) {
            lemma_digits_value_nonneg(t);
        }
    }
    match wide {
        Option::Some(v) => {
            if v <= 0xFFFF {
                Option::Some(v as u16)
            } else {
                Option::None
            }
        },
        Option::None => Option::None,
    }
}

} // verus!
