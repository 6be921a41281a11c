//! Little endian `u16` fields, through `byteorder::LittleEndian`.
use byteorder::{ByteOrder, LittleEndian};
use vstd::prelude::*;

use crate::wire::le_u16;

verus! {

/// `LittleEndian::read_u16`: the value of the first two bytes.
#[verifier::external_body]
pub(crate) fn read_u16_le(buf: &[u8]) -> (r: u16)
    requires
        buf@.len() >= 2,
    ensures
        r == le_u16(buf@[0], buf@[1]),
{
    LittleEndian::read_u16(buf)
}

/// `LittleEndian::write_u16` into a two byte array: low byte first.
#[verifier::external_body]
pub(crate) fn u16_le_bytes(value: u16) -> (r: [u8; 2])
    ensures
        r@ == seq![(value % 256) as u8, (value / 256) as u8],
{
    let mut bytes = [0u8; 2];
    LittleEndian::write_u16(&mut bytes, value);
    bytes
}

} // verus!
