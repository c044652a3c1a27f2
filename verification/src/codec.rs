//! The request wire format: a one-byte discriminant, followed for the
//! create request by three length-prefixed UTF-8 strings.
//!
//! Each string field is a little-endian `u32` byte count and then that
//! many bytes, which must be valid UTF-8.  A payload decodes only if it
//! is consumed exactly, with no trailing bytes.

use vstd::prelude::*;
use crate::ProgError;

verus! {

/// What decoding a byte sequence as UTF-8 yields: `Some` of the
/// character sequence when the bytes are valid UTF-8, `None` otherwise.
/// The result depends on the bytes alone.
pub uninterp spec fn utf8_decode(bytes: Seq<u8>) -> Option<Seq<char>>;

/// How many bytes one character takes in UTF-8: one below 0x80, two
/// below 0x800, three below 0x10000, four for the rest.
pub open spec fn char_utf8_len(c: char) -> int {
    if (c as int) < 0x80 {
        1
    } else if (c as int) < 0x800 {
        2
    } else if (c as int) < 0x10000 {
        3
    } else {
        4
    }
}

/// The UTF-8 byte length of a character sequence.
pub open spec fn utf8_len(s: Seq<char>) -> int
    decreases s.len(),
{
    if s.len() == 0 {
        0
    } else {
        char_utf8_len(s[0]) + utf8_len(s.drop_first())
    }
}

/// Relies on `String::from_utf8`: it returns the string whose characters
/// are the UTF-8 decoding of the given bytes, taking the bytes as the
/// string's own buffer — so the string's UTF-8 byte length is exactly
/// the input's length — and fails exactly on byte sequences that are
/// not valid UTF-8.
#[verifier::external_body]
pub(crate) fn bytes_to_string(v: Vec<u8>) -> (r: Option<String>)
    ensures
        r is Some <==> utf8_decode(v@) is Some,
        r is Some ==> r->0@ == utf8_decode(v@)->0,
        r is Some ==> utf8_len(r->0@) == v@.len(),
{
    String::from_utf8(v).ok()
}

/// The value of four bytes read as a little-endian 32-bit length.
pub open spec fn le32(s: Seq<u8>) -> int
    recommends
        s.len() == 4,
{
    s[0] + 256 * s[1] + 65536 * s[2] + 16777216 * s[3]
}

/// The offset just past the length-prefixed field that starts at `i`.
pub open spec fn field_end(data: Seq<u8>, i: int) -> int {
    i + 4 + le32(data.subrange(i, i + 4))
}

/// The payload bytes of the length-prefixed field that starts at `i`.
pub open spec fn field_bytes(data: Seq<u8>, i: int) -> Seq<u8> {
    data.subrange(i + 4, field_end(data, i))
}

/// Whether a well-formed string field starts at offset `i`: the length
/// prefix and the announced bytes lie within `data`, and those bytes
/// are valid UTF-8.
pub open spec fn field_ok(data: Seq<u8>, i: int) -> bool {
    &&& 0 <= i
    &&& i + 4 <= data.len()
    &&& field_end(data, i) <= data.len()
    &&& utf8_decode(field_bytes(data, i)) is Some
}

/// The characters of the string field that starts at offset `i`.
pub open spec fn field_chars(data: Seq<u8>, i: int) -> Seq<char> {
    utf8_decode(field_bytes(data, i))->0
}

/// Reads the length-prefixed UTF-8 string field that starts at offset
/// `i`, returning the string and the offset just past it.
pub(crate) fn read_str(data: &[u8], i: usize) -> (r: Result<(String, usize), ProgError>)
    requires
        i <= data@.len(),
    ensures
        match r {
            Ok(p) => {
                &&& field_ok(data@, i as int)
                &&& p.0@ == field_chars(data@, i as int)
                &&& utf8_len(p.0@) <= 0xFFFF_FFFF
                &&& p.1 == field_end(data@, i as int)
                &&& i + 4 <= p.1 <= data@.len()
            },
            Err(e) => {
                &&& !field_ok(data@, i as int)
                &&& e == ProgError::InvalidInstructionData
            },
        },
{
    if data.len() < 4 || i > data.len() - 4 {
        return Err(ProgError::InvalidInstructionData);
    }
    let n32: u32 = (data[i] as u32) + 256 * (data[i + 1] as u32) + 65536 * (data[i + 2] as u32)
        + 16777216 * (data[i + 3] as u32);
    proof {
        let pre = data@.subrange(i as int, i + 4);
        assert(pre[0] == data@[i as int]);
        assert(pre[1] == data@[i + 1]);
        assert(pre[2] == data@[i + 2]);
        assert(pre[3] == data@[i + 3]);
        assert(n32 == le32(pre));
    }
    let n: usize = n32 as usize;
    if n > data.len() - (i + 4) {
        return Err(ProgError::InvalidInstructionData);
    }
    let start: usize = i + 4;
    let end: usize = start + n;
    assert(end == field_end(data@, i as int));
    let mut v: Vec<u8> = Vec::new();
    let mut j: usize = start;
    while j < end
        invariant
            start <= j <= end <= data@.len(),
            v@ == data@.subrange(start as int, j as int),
        decreases end - j,
    {
        v.push(data[j]);
        proof {
            assert(v@ =~= data@.subrange(start as int, j + 1));
        }
        j += 1;
    }
    proof {
        assert(v@ =~= field_bytes(data@, i as int));
    }
    match bytes_to_string(v) {
        Some(s) => Ok((s, end)),
        None => Err(ProgError::InvalidInstructionData),
    }
}

} // verus!
