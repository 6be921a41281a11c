//! The ElectricUI packet layout: a model of its fields over raw bytes, and the
//! calls into `electricui_embedded::wire::packet::Packet` that read and write
//! them.
//!
//! A packet is a three byte header, the message id, the payload and a little
//! endian CRC16 (CCITT-FALSE) over everything before it:
//!
//! * byte 0, bits 0..=7 and byte 1, bits 0..=1: the payload length
//! * byte 1, bits 2..=5: the message type; bit 6: internal; bit 7: offset
//! * byte 2, bits 0..=3: the id length; bit 4: response; bits 5..=7: acknum
use electricui_embedded::message::MessageType;
use electricui_embedded::wire::packet::Error as WirePacketError;
use electricui_embedded::wire::packet::Packet;
use vstd::prelude::*;

verus! {

/// The outcome of a packet call that can fail.
pub type WireResult<T> = Result<T, WirePacketError>;

/// Bytes of the fixed header.
pub const HEADER_SIZE: usize = 3;

/// Bytes of the trailing checksum.
pub const CHECKSUM_SIZE: usize = 2;

/// Largest payload the format admits.
pub const MAX_PAYLOAD_SIZE: usize = 1024;

/// Largest message id the format admits.
pub const MAX_MSG_ID_SIZE: usize = 15;

/// Largest packet: header, checksum, the longest id and the longest payload.
pub const MAX_PACKET_SIZE: usize = 1044;

/// The little endian value of two bytes.
pub open spec fn le_u16(lo: u8, hi: u8) -> int {
    lo + 256 * hi
}

/// Payload length field (10 bits).
pub open spec fn data_length_of(p: Seq<u8>) -> int {
    le_u16(p[0], p[1]) % 1024
}

/// Message type field (4 bits).
pub open spec fn typ_of(p: Seq<u8>) -> int {
    ((p[1] / 4) % 16) as int
}

/// Internal flag.
pub open spec fn internal_of(p: Seq<u8>) -> bool {
    (p[1] / 64) % 2 == 1
}

/// Offset flag.
pub open spec fn offset_of(p: Seq<u8>) -> bool {
    p[1] / 128 == 1
}

/// Message id length field (4 bits).
pub open spec fn id_length_of(p: Seq<u8>) -> int {
    (p[2] % 16) as int
}

/// Response flag.
pub open spec fn response_of(p: Seq<u8>) -> bool {
    (p[2] / 16) % 2 == 1
}

/// Acknowledgement number field (3 bits).
pub open spec fn acknum_of(p: Seq<u8>) -> int {
    (p[2] / 32) as int
}

/// End of the id and payload bytes, where the checksum starts.
pub open spec fn body_end_of(p: Seq<u8>) -> int {
    HEADER_SIZE + id_length_of(p) + data_length_of(p)
}

/// Bytes a packet takes on the wire: header, id, payload and checksum.
pub open spec fn wire_size_of(p: Seq<u8>) -> int {
    body_end_of(p) + CHECKSUM_SIZE
}

/// The message id bytes.
pub open spec fn msg_id_of(p: Seq<u8>) -> Seq<u8> {
    p.subrange(HEADER_SIZE as int, HEADER_SIZE + id_length_of(p))
}

/// The payload bytes.
pub open spec fn payload_of(p: Seq<u8>) -> Seq<u8> {
    p.subrange(HEADER_SIZE + id_length_of(p), body_end_of(p))
}

/// The checksum that the packet carries.
pub open spec fn checksum_field_of(p: Seq<u8>) -> int {
    le_u16(p[body_end_of(p)], p[body_end_of(p) + 1])
}

/// The CRC16 (CCITT-FALSE: poly 0x1021, init 0xFFFF, no reflection, no
/// final xor) of a byte string, as the `crc` crate computes it.
pub uninterp spec fn crc16_ccitt_false(data: Seq<u8>) -> u16;

/// A message id that `MessageId::new` accepts: one to fifteen bytes, and not
/// the single byte zero.
pub open spec fn valid_msg_id(id: Seq<u8>) -> bool {
    1 <= id.len() <= MAX_MSG_ID_SIZE && !(id.len() == 1 && id[0] == 0)
}

/// What `Packet::new` accepts: a header and a checksum, a non-zero id length,
/// every id and payload byte present, and a checksum equal to the CRC of
/// everything before it.
pub open spec fn accepted_packet(p: Seq<u8>) -> bool {
    &&& p.len() >= HEADER_SIZE + CHECKSUM_SIZE
    &&& id_length_of(p) != 0
    &&& p.len() >= wire_size_of(p)
    &&& checksum_field_of(p) == crc16_ccitt_false(p.take(body_end_of(p)))
}

/// The id and payload ranges lie inside the buffer (or the id length is
/// zero, in which case the packet calls that read them fail first).
pub open spec fn body_in_bounds(p: Seq<u8>) -> bool {
    p.len() >= HEADER_SIZE && (id_length_of(p) == 0 || body_end_of(p) <= p.len())
}

/// The message types of the format.
#[derive(Clone, Copy, Debug, PartialEq, Eq, Structural)]
pub enum MsgType {
    Callback,
    Custom,
    OffsetMetadata,
    Byte,
    Char,
    I8,
    U8,
    I16,
    U16,
    I32,
    U32,
    Float32,
    Float64,
    Unknown(u8),
}

/// The number that stands for a message type on the wire.
pub open spec fn msg_type_code(t: MsgType) -> u8 {
    match t {
        MsgType::Callback => 0,
        MsgType::Custom => 1,
        MsgType::OffsetMetadata => 2,
        MsgType::Byte => 3,
        MsgType::Char => 4,
        MsgType::I8 => 5,
        MsgType::U8 => 6,
        MsgType::I16 => 7,
        MsgType::U16 => 8,
        MsgType::I32 => 9,
        MsgType::U32 => 10,
        MsgType::Float32 => 11,
        MsgType::Float64 => 12,
        MsgType::Unknown(c) => c,
    }
}

/// Bytes of one element of a message type, by its wire number; zero for the
/// types that carry no fixed-size data.
pub open spec fn element_size_of_code(code: u8) -> int {
    if 3 <= code <= 6 {
        1
    } else if 7 <= code <= 8 {
        2
    } else if 9 <= code <= 11 {
        4
    } else if code == 12 {
        8
    } else {
        0
    }
}

impl MsgType {
    /// The number that stands for this type on the wire.
    pub fn code(&self) -> (r: u8)
        ensures
            r == msg_type_code(*self),
    {
        match self {
            MsgType::Callback => 0,
            MsgType::Custom => 1,
            MsgType::OffsetMetadata => 2,
            MsgType::Byte => 3,
            MsgType::Char => 4,
            MsgType::I8 => 5,
            MsgType::U8 => 6,
            MsgType::I16 => 7,
            MsgType::U16 => 8,
            MsgType::I32 => 9,
            MsgType::U32 => 10,
            MsgType::Float32 => 11,
            MsgType::Float64 => 12,
            MsgType::Unknown(c) => *c,
        }
    }
}

/// `MessageType::array_wire_size_hint` of the type with wire number `code`:
/// the bytes taken by `n` elements of that type.
#[verifier::external_body]
pub(crate) fn array_wire_size_hint(code: u8, n: usize) -> (r: usize)
    requires
        n * 8 <= usize::MAX,
    ensures
        r == n * element_size_of_code(code),
{
    MessageType::from(code).array_wire_size_hint(n)
}

// ---------------------------------------------------------------------------
// Reading a received packet
// ---------------------------------------------------------------------------

/// `Packet::data_length`: the payload length field.
#[verifier::external_body]
pub(crate) fn packet_data_length(pkt: &[u8]) -> (r: u16)
    requires
        pkt@.len() >= 2,
    ensures
        r == data_length_of(pkt@),
{
    Packet::new_unchecked(pkt).data_length()
}

/// `Packet::internal`: the internal flag.
#[verifier::external_body]
pub(crate) fn packet_internal(pkt: &[u8]) -> (r: bool)
    requires
        pkt@.len() >= 2,
    ensures
        r == internal_of(pkt@),
{
    Packet::new_unchecked(pkt).internal()
}

/// `Packet::response`: the response flag.
#[verifier::external_body]
pub(crate) fn packet_response(pkt: &[u8]) -> (r: bool)
    requires
        pkt@.len() >= HEADER_SIZE,
    ensures
        r == response_of(pkt@),
{
    Packet::new_unchecked(pkt).response()
}

/// The error that `Packet::msg_id` gives on a packet whose id it refuses.
pub uninterp spec fn msg_id_error(pkt: Seq<u8>) -> WirePacketError;

/// `Packet::msg_id`: the message id, which fails on a zero id length or on an
/// id that `MessageId::new` refuses.
#[verifier::external_body]
pub(crate) fn packet_msg_id(pkt: &[u8]) -> (r: WireResult<Vec<u8>>)
    requires
        body_in_bounds(pkt@),
    ensures
        r.is_ok() <==> (id_length_of(pkt@) != 0 && valid_msg_id(msg_id_of(pkt@))),
        r.is_ok() ==> r.unwrap()@ == msg_id_of(pkt@),
        r.is_err() ==> r->Err_0 == msg_id_error(pkt@),
{
    match Packet::new_unchecked(pkt).msg_id() {
        Ok(id) => Ok(id.as_bytes().to_vec()),
        Err(e) => Err(e),
    }
}

/// `Packet::payload`: the payload bytes, which fails on a zero id length.
#[verifier::external_body]
pub(crate) fn packet_payload(pkt: &[u8]) -> (r: WireResult<Vec<u8>>)
    requires
        body_in_bounds(pkt@),
    ensures
        r.is_ok() <==> id_length_of(pkt@) != 0,
        r.is_ok() ==> r.unwrap()@ == payload_of(pkt@),
{
    match Packet::new_unchecked(pkt).payload() {
        Ok(data) => Ok(data.to_vec()),
        Err(e) => Err(e),
    }
}

/// The error that `Packet::wire_size` gives on a packet with a zero id length.
pub uninterp spec fn wire_size_error(pkt: Seq<u8>) -> WirePacketError;

/// `Packet::wire_size`: header, id, payload and checksum bytes; fails on a
/// zero id length.
#[verifier::external_body]
pub(crate) fn packet_wire_size(pkt: &[u8]) -> (r: WireResult<usize>)
    requires
        pkt@.len() >= HEADER_SIZE,
    ensures
        r.is_ok() <==> id_length_of(pkt@) != 0,
        r.is_ok() ==> r.unwrap() == wire_size_of(pkt@),
        r.is_err() ==> r->Err_0 == wire_size_error(pkt@),
{
    Packet::new_unchecked(pkt).wire_size()
}

/// `Packet::compute_checksum`: the CRC of the header, id and payload; fails
/// on a zero id length.
#[verifier::external_body]
pub(crate) fn packet_compute_checksum(pkt: &[u8]) -> (r: WireResult<u16>)
    requires
        body_in_bounds(pkt@),
    ensures
        r.is_ok() <==> id_length_of(pkt@) != 0,
        r.is_ok() ==> r.unwrap() == crc16_ccitt_false(pkt@.take(body_end_of(pkt@))),
{
    Packet::new_unchecked(pkt).compute_checksum()
}

// ---------------------------------------------------------------------------
// Writing a packet in place
// ---------------------------------------------------------------------------

/// `Packet::set_data_length`: refuses a length over 1024, else writes the
/// value masked to ten bits as a little endian `u16` into bytes 0 and 1.
#[verifier::external_body]
pub(crate) fn set_data_length(buf: &mut Vec<u8>, value: u16) -> (r: WireResult<()>)
    requires
        old(buf)@.len() >= 2,
    ensures
        r.is_ok() <==> value <= MAX_PAYLOAD_SIZE,
        r.is_ok() ==> final(buf)@ == old(buf)@.update(0, ((value & 0x3FF) % 256) as u8).update(
            1,
            ((value & 0x3FF) / 256) as u8,
        ),
        r.is_err() ==> final(buf)@ == old(buf)@,
{
    Packet::new_unchecked(buf.as_mut_slice()).set_data_length(value)
}

/// `Packet::set_typ`: writes `u8::from(MessageType::from(code)) << 2`, which
/// is `code << 2`, into bits 2..=5 of byte 1.
#[verifier::external_body]
pub(crate) fn set_typ(buf: &mut Vec<u8>, code: u8)
    requires
        old(buf)@.len() >= 2,
    ensures
        final(buf)@ == old(buf)@.update(1, (old(buf)@[1] & !0x3Cu8) | (code << 2u8)),
{
    Packet::new_unchecked(buf.as_mut_slice()).set_typ(MessageType::from(code))
}

/// `Packet::set_internal`: sets or clears bit 6 of byte 1.
#[verifier::external_body]
pub(crate) fn set_internal(buf: &mut Vec<u8>, value: bool)
    requires
        old(buf)@.len() >= 2,
    ensures
        final(buf)@ == old(buf)@.update(
            1,
            if value {
                old(buf)@[1] | 0x40u8
            } else {
                old(buf)@[1] & !0x40u8
            },
        ),
{
    Packet::new_unchecked(buf.as_mut_slice()).set_internal(value)
}

/// `Packet::set_offset`: sets or clears bit 7 of byte 1.
#[verifier::external_body]
pub(crate) fn set_offset(buf: &mut Vec<u8>, value: bool)
    requires
        old(buf)@.len() >= 2,
    ensures
        final(buf)@ == old(buf)@.update(
            1,
            if value {
                old(buf)@[1] | 0x80u8
            } else {
                old(buf)@[1] & !0x80u8
            },
        ),
{
    Packet::new_unchecked(buf.as_mut_slice()).set_offset(value)
}

/// `Packet::set_id_length`: refuses zero or more than fifteen, else writes the
/// value into bits 0..=3 of byte 2.
#[verifier::external_body]
pub(crate) fn set_id_length(buf: &mut Vec<u8>, value: u8) -> (r: WireResult<()>)
    requires
        old(buf)@.len() >= HEADER_SIZE,
    ensures
        r.is_ok() <==> 1 <= value <= MAX_MSG_ID_SIZE,
        r.is_ok() ==> final(buf)@ == old(buf)@.update(
            2,
            (old(buf)@[2] & !0x0Fu8) | (value & 0x0Fu8),
        ),
        r.is_err() ==> final(buf)@ == old(buf)@,
{
    Packet::new_unchecked(buf.as_mut_slice()).set_id_length(value)
}

/// `Packet::set_response`: sets or clears bit 4 of byte 2.
#[verifier::external_body]
pub(crate) fn set_response(buf: &mut Vec<u8>, value: bool)
    requires
        old(buf)@.len() >= HEADER_SIZE,
    ensures
        final(buf)@ == old(buf)@.update(
            2,
            if value {
                old(buf)@[2] | 0x10u8
            } else {
                old(buf)@[2] & !0x10u8
            },
        ),
{
    Packet::new_unchecked(buf.as_mut_slice()).set_response(value)
}

/// `Packet::set_acknum`: writes the low three bits of the value into bits
/// 5..=7 of byte 2.
#[verifier::external_body]
pub(crate) fn set_acknum(buf: &mut Vec<u8>, value: u8)
    requires
        old(buf)@.len() >= HEADER_SIZE,
    ensures
        final(buf)@ == old(buf)@.update(
            2,
            (old(buf)@[2] & !0xE0u8) | ((value & 0x07u8) << 5u8),
        ),
{
    Packet::new_unchecked(buf.as_mut_slice()).set_acknum(value)
}

/// `Packet::msg_id_mut` followed by `copy_from_slice`: copies `id` over the
/// message id bytes; fails on a zero id length.
#[verifier::external_body]
pub(crate) fn write_msg_id(buf: &mut Vec<u8>, id: &[u8]) -> (r: WireResult<()>)
    requires
        body_in_bounds(old(buf)@),
        id_length_of(old(buf)@) == 0 || id@.len() == id_length_of(old(buf)@),
    ensures
        r.is_ok() <==> id_length_of(old(buf)@) != 0,
        r.is_ok() ==> final(buf)@ == old(buf)@.take(HEADER_SIZE as int) + id@ + old(buf)@.skip(
            HEADER_SIZE + id@.len(),
        ),
        r.is_err() ==> final(buf)@ == old(buf)@,
{
    let mut p = Packet::new_unchecked(buf.as_mut_slice());
    match p.msg_id_mut() {
        Ok(dst) => Ok(dst.copy_from_slice(id)),
        Err(e) => Err(e),
    }
}

/// `Packet::payload_mut` followed by `copy_from_slice`: copies `data` over the
/// payload bytes; fails on a zero id length.
#[verifier::external_body]
pub(crate) fn write_payload(buf: &mut Vec<u8>, data: &[u8]) -> (r: WireResult<()>)
    requires
        body_in_bounds(old(buf)@),
        id_length_of(old(buf)@) == 0 || data@.len() == data_length_of(old(buf)@),
    ensures
        r.is_ok() <==> id_length_of(old(buf)@) != 0,
        r.is_ok() ==> final(buf)@ == old(buf)@.take(HEADER_SIZE + id_length_of(old(buf)@)) + data@
            + old(buf)@.skip(body_end_of(old(buf)@)),
        r.is_err() ==> final(buf)@ == old(buf)@,
{
    let mut p = Packet::new_unchecked(buf.as_mut_slice());
    match p.payload_mut() {
        Ok(dst) => Ok(dst.copy_from_slice(data)),
        Err(e) => Err(e),
    }
}

/// `Packet::set_checksum`: writes the value as a little endian `u16` right
/// after the payload; fails on a zero id length.
#[verifier::external_body]
pub(crate) fn set_checksum(buf: &mut Vec<u8>, value: u16) -> (r: WireResult<()>)
    requires
        old(buf)@.len() >= HEADER_SIZE,
        id_length_of(old(buf)@) == 0 || wire_size_of(old(buf)@) <= old(buf)@.len(),
    ensures
        r.is_ok() <==> id_length_of(old(buf)@) != 0,
        r.is_ok() ==> final(buf)@ == old(buf)@.update(body_end_of(old(buf)@), (value % 256) as u8).update(
            body_end_of(old(buf)@) + 1,
            (value / 256) as u8,
        ),
        r.is_err() ==> final(buf)@ == old(buf)@,
{
    Packet::new_unchecked(buf.as_mut_slice()).set_checksum(value)
}

} // verus!
