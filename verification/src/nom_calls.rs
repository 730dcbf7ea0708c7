//! The calls into `nom` that the parsers make. Each wrapper runs nom's
//! complete-input parser on a byte slice, with `()` as nom's error type: on
//! byte slices these parsers fail only with `ErrorKind::Eof`, so a failure
//! carries no information beyond "the input is too short".
use vstd::prelude::*;

verus! {

/// The big-endian unsigned value of the first four bytes of `s`.
pub open spec fn be_u32_value(s: Seq<u8>) -> int
    recommends
        s.len() >= 4,
{
    s[0] * 0x100_0000 + s[1] * 0x1_0000 + s[2] * 0x100 + s[3]
}

/// Calls `nom::number::complete::le_u8`. nom's source shows that it fails
/// exactly when the input is empty, and otherwise returns the first byte and
/// the input without that byte.
#[verifier::external_body]
pub(crate) fn nom_le_u8<'a>(bytes: &'a [u8]) -> (r: Option<(&'a [u8], u8)>)
    ensures
        r is None <==> bytes@.len() == 0,
        r matches Some((rest, v)) ==> rest@ == bytes@.skip(1) && v == bytes@[0],
{
    match nom::number::complete::le_u8::<&'a [u8], ()>(bytes) {
        Ok((rest, v)) => Some((rest, v)),
        Err(_) => None,
    }
}

/// Calls `nom::number::complete::be_u32`. nom's source shows that it fails
/// exactly when the input holds fewer than four bytes, and otherwise returns
/// the big-endian value of the first four bytes and the input without them.
#[verifier::external_body]
pub(crate) fn nom_be_u32<'a>(bytes: &'a [u8]) -> (r: Option<(&'a [u8], u32)>)
    ensures
        r is None <==> bytes@.len() < 4,
        r matches Some((rest, v)) ==> rest@ == bytes@.skip(4) && v as int == be_u32_value(bytes@),
{
    match nom::number::complete::be_u32::<&'a [u8], ()>(bytes) {
        Ok((rest, v)) => Some((rest, v)),
        Err(_) => None,
    }
}

/// Calls `nom::bytes::complete::take(count)`. nom's source shows that it
/// fails exactly when the input holds fewer than `count` bytes, and otherwise
/// splits the input into the rest (first in the pair) and the first `count`
/// bytes (second).
#[verifier::external_body]
pub(crate) fn nom_take<'a>(count: usize, bytes: &'a [u8]) -> (r: Option<(&'a [u8], &'a [u8])>)
    ensures
        r is None <==> bytes@.len() < count,
        r matches Some((rest, taken)) ==> rest@ == bytes@.skip(count as int) && taken@
            == bytes@.take(count as int),
{
    match nom::bytes::complete::take::<usize, &'a [u8], ()>(count)(bytes) {
        Ok((rest, taken)) => Some((rest, taken)),
        Err(_) => None,
    }
}

} // verus!
