//! The fixed-width integer encoding shared by every structured value:
//! a 32-bit integer is four bytes, least significant first.

use vstd::prelude::*;
use crate::error::Error;

verus! {

/// The four bytes that stand for `v`, least significant first.
pub open spec fn u32_wire(v: u32) -> Seq<u8> {
    seq![
        (v % 256) as u8,
        ((v / 256) % 256) as u8,
        ((v / 65536) % 256) as u8,
        (v / 16777216) as u8,
    ]
}

/// The integer that four bytes stand for.
pub open spec fn u32_value(bytes: Seq<u8>) -> u32
    recommends
        bytes.len() == 4,
{
    (bytes[0] + 256 * bytes[1] + 65536 * bytes[2] + 16777216 * bytes[3]) as u32
}

/// What reading one integer at offset `at` of `bytes` gives: the value of
/// the next four bytes, or an end-of-input error where fewer are left.
pub open spec fn u32_at(bytes: Seq<u8>, at: int) -> Result<u32, Error> {
    if 0 <= at && at + 4 <= bytes.len() {
        Ok(u32_value(bytes.subrange(at, at + 4)))
    } else {
        Err(Error::UnexpectedEof)
    }
}

/// Reading back what was written gives the integer again.
pub proof fn lemma_u32_value_of_wire(v: u32)
    ensures
        u32_wire(v).len() == 4,
        u32_value(u32_wire(v)) == v,
{
}

/// Writing what was read gives the four bytes again: no two byte strings
/// stand for one integer.
pub proof fn lemma_u32_wire_of_value(bytes: Seq<u8>)
    requires
        bytes.len() == 4,
    ensures
        u32_wire(u32_value(bytes)) == bytes,
{
    let b0 = bytes[0] as int;
    let b1 = bytes[1] as int;
    let b2 = bytes[2] as int;
    let b3 = bytes[3] as int;
    let v = b0 + 256 * b1 + 65536 * b2 + 16777216 * b3;
    assert(v % 256 == b0 && (v / 256) % 256 == b1 && (v / 65536) % 256 == b2 && v / 16777216
        == b3) by (nonlinear_arith)
        requires
            v == b0 + 256 * b1 + 65536 * b2 + 16777216 * b3,
            0 <= b0 < 256,
            0 <= b1 < 256,
            0 <= b2 < 256,
            0 <= b3 < 256,
    ;
    assert(u32_value(bytes) == v);
    assert(u32_wire(u32_value(bytes)) =~= bytes);
}

/// Encodes one integer.
pub fn encode_u32(v: u32) -> (out: [u8; 4])
    ensures
        out@ == u32_wire(v),
{
    let out: [u8; 4] = [
        (v % 256) as u8,
        ((v / 256) % 256) as u8,
        ((v / 65536) % 256) as u8,
        (v / 16777216) as u8,
    ];
    assert(out@ =~= u32_wire(v));
    out
}

/// Appends the encoding of one integer to `out`.
pub fn write_u32(out: &mut Vec<u8>, v: u32)
    ensures
        final(out)@ == old(out)@ + u32_wire(v),
{
    let word = encode_u32(v);
    out.push(word[0]);
    out.push(word[1]);
    out.push(word[2]);
    out.push(word[3]);
    assert(out@ =~= old(out)@ + u32_wire(v));
}

/// Decodes the integer that starts at offset `at`.
pub fn decode_u32(bytes: &[u8], at: usize) -> (r: Result<u32, Error>)
    ensures
        r == u32_at(bytes@, at as int),
{
    if at > bytes.len() || bytes.len() - at < 4 {
        return Err(Error::UnexpectedEof);
    }
    let b0: u32 = bytes[at] as u32;
    let b1: u32 = bytes[at + 1] as u32;
    let b2: u32 = bytes[at + 2] as u32;
    let b3: u32 = bytes[at + 3] as u32;
    Ok(b0 + 256 * b1 + 65536 * b2 + 16777216 * b3)
}

} // verus!
