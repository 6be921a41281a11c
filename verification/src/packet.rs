//! Building outgoing packets in a scratch buffer, and framing packets for the
//! serial line.
use vstd::prelude::*;

use crate::error::BoardError;
use crate::framing::{cobs_encode, encode_buf, max_encoded_len, max_encoded_len_of};
use crate::wire::{
    accepted_packet, acknum_of, body_end_of, checksum_field_of, crc16_ccitt_false,
    data_length_of, id_length_of, internal_of, le_u16, msg_id_of, msg_type_code, offset_of, wire_size_error,
    payload_of, packet_compute_checksum, packet_wire_size, response_of,
    set_acknum, set_checksum, set_data_length, set_id_length, set_internal, set_offset,
    set_response, set_typ, typ_of, wire_size_of, write_msg_id, write_payload, MsgType,
    CHECKSUM_SIZE, HEADER_SIZE, MAX_MSG_ID_SIZE, MAX_PAYLOAD_SIZE,
};

verus! {

/// The header of an outgoing packet: the payload length, the type, the
/// internal flag and the id length; no offset, not a response, acknum zero.
pub open spec fn header_bytes(code: u8, internal: bool, id_len: int, data_len: int) -> Seq<u8> {
    seq![
        (data_len % 256) as u8,
        (data_len / 256 + 4 * code + (if internal { 64int } else { 0int })) as u8,
        id_len as u8,
    ]
}

/// Header, id and payload of an outgoing packet: what the checksum covers.
pub open spec fn packet_body(code: u8, internal: bool, id: Seq<u8>, payload: Seq<u8>) -> Seq<u8> {
    header_bytes(code, internal, id.len() as int, payload.len() as int) + id + payload
}

/// An outgoing packet: its body followed by the little endian CRC16 of it.
pub open spec fn packet_bytes(code: u8, internal: bool, id: Seq<u8>, payload: Seq<u8>) -> Seq<u8> {
    let body = packet_body(code, internal, id, payload);
    let crc = crc16_ccitt_false(body);
    body + seq![(crc % 256) as u8, (crc / 256) as u8]
}

/// The COBS frame of an outgoing packet, as it goes on the serial line.
pub open spec fn frame_bytes(code: u8, internal: bool, id: Seq<u8>, payload: Seq<u8>) -> Seq<u8> {
    cobs_encode(packet_bytes(code, internal, id, payload))
}

/// What an outgoing packet needs: a type number that fits the four type bits,
/// an id of one to fifteen bytes, a payload of at most 1023 bytes.
pub open spec fn packet_fits(code: u8, id: Seq<u8>, payload: Seq<u8>) -> bool {
    &&& code < 16
    &&& 1 <= id.len() <= MAX_MSG_ID_SIZE
    &&& payload.len() < MAX_PAYLOAD_SIZE
}

proof fn lemma_data_length_mask(dl: u16)
    requires
        dl < 1024,
    ensures
        dl & 0x3FF == dl,
{
    assert(dl < 1024 ==> dl & 0x3FF == dl) by (bit_vector);
}

proof fn lemma_type_byte(hi: u8, code: u8, internal: bool)
    requires
        hi < 4,
        code < 16,
    ensures
        ({
            let b = (hi & !0x3Cu8) | (code << 2u8);
            let b = if internal {
                b | 0x40u8
            } else {
                b & !0x40u8
            };
            b & !0x80u8
        }) == hi + 4 * code + (if internal { 64int } else { 0int }),
{
    if internal {
        assert(hi < 4 && code < 16 ==> ((((hi & !0x3Cu8) | (code << 2u8)) | 0x40u8) & !0x80u8) == hi
            + 4 * code + 64) by (bit_vector);
    } else {
        assert(hi < 4 && code < 16 ==> ((((hi & !0x3Cu8) | (code << 2u8)) & !0x40u8) & !0x80u8) == hi
            + 4 * code) by (bit_vector);
    }
}

proof fn lemma_id_byte(old_byte: u8, id_len: u8)
    requires
        1 <= id_len <= 15,
    ensures
        ((((old_byte & !0x0Fu8) | (id_len & 0x0Fu8)) & !0x10u8) & !0xE0u8) | ((0u8 & 0x07u8)
            << 5u8) == id_len,
{
    assert(1 <= id_len <= 15 ==> ((((old_byte & !0x0Fu8) | (id_len & 0x0Fu8)) & !0x10u8)
        & !0xE0u8) | ((0u8 & 0x07u8) << 5u8) == id_len) by (bit_vector);
}

/// Writes the header of an outgoing packet into `buf`: payload length, type,
/// internal flag, no offset, id length, not a response, acknum zero.
fn write_header(buf: &mut Vec<u8>, code: u8, data_len: u16, internal: bool, id_len: u8)
    requires
        old(buf)@.len() >= HEADER_SIZE,
        code < 16,
        data_len < MAX_PAYLOAD_SIZE,
        1 <= id_len <= MAX_MSG_ID_SIZE,
    ensures
        final(buf)@.len() == old(buf)@.len(),
        final(buf)@.take(HEADER_SIZE as int) == header_bytes(
            code,
            internal,
            id_len as int,
            data_len as int,
        ),
        final(buf)@.skip(HEADER_SIZE as int) == old(buf)@.skip(HEADER_SIZE as int),
{
    let ghost start = buf@;
    proof {
        lemma_data_length_mask(data_len);
    }
    match set_data_length(buf, data_len) {
        Ok(()) => {},
        Err(_) => {
            assert(false);
        },
    }
    let ghost hi = buf@[1];
    assert(hi == data_len / 256);
    set_typ(buf, code);
    set_internal(buf, internal);
    set_offset(buf, false);
    proof {
        lemma_type_byte(hi, code, internal);
    }
    let ghost before_id = buf@[2];
    match set_id_length(buf, id_len) {
        Ok(()) => {},
        Err(_) => {
            assert(false);
        },
    }
    set_response(buf, false);
    set_acknum(buf, 0);
    proof {
        lemma_id_byte(before_id, id_len);
    }
    assert(buf@.take(HEADER_SIZE as int) =~= header_bytes(
        code,
        internal,
        id_len as int,
        data_len as int,
    ));
    assert(buf@.skip(HEADER_SIZE as int) =~= start.skip(HEADER_SIZE as int));
}

/// The header bytes of an outgoing packet read back as the fields they were
/// written from.
pub proof fn lemma_header_fields(p: Seq<u8>, code: u8, internal: bool, id_len: int, data_len: int)
    requires
        p.len() >= HEADER_SIZE,
        p.take(HEADER_SIZE as int) == header_bytes(code, internal, id_len, data_len),
        code < 16,
        1 <= id_len <= MAX_MSG_ID_SIZE,
        0 <= data_len < MAX_PAYLOAD_SIZE,
    ensures
        data_length_of(p) == data_len,
        typ_of(p) == code,
        internal_of(p) == internal,
        !offset_of(p),
        id_length_of(p) == id_len,
        !response_of(p),
        acknum_of(p) == 0,
{
    assert(p[0] == p.take(HEADER_SIZE as int)[0]);
    assert(p[1] == p.take(HEADER_SIZE as int)[1]);
    assert(p[2] == p.take(HEADER_SIZE as int)[2]);
    let hi = data_len / 256;
    assert(0 <= hi < 4);
    assert(p[1] == hi + 4 * code + (if internal { 64int } else { 0int }));
    assert(p[0] == data_len % 256);
    assert(data_length_of(p) == data_len) by {
        assert(le_u16(p[0], p[1]) == data_len + 1024 * (code + (if internal { 16int } else { 0int })));
    }
}

/// A packet built for sending is one that the receiving side accepts
/// (`Packet::new`: lengths in place, non-zero id length, checksum equal to
/// the CRC of the rest), and reading its fields gives back what it was built
/// from.
pub proof fn lemma_built_packet_reads_back(code: u8, internal: bool, id: Seq<u8>, payload: Seq<u8>)
    requires
        packet_fits(code, id, payload),
    ensures
        accepted_packet(packet_bytes(code, internal, id, payload)),
        wire_size_of(packet_bytes(code, internal, id, payload)) == packet_bytes(
            code,
            internal,
            id,
            payload,
        ).len(),
        msg_id_of(packet_bytes(code, internal, id, payload)) == id,
        payload_of(packet_bytes(code, internal, id, payload)) == payload,
        data_length_of(packet_bytes(code, internal, id, payload)) == payload.len(),
        typ_of(packet_bytes(code, internal, id, payload)) == code,
        internal_of(packet_bytes(code, internal, id, payload)) == internal,
        !offset_of(packet_bytes(code, internal, id, payload)),
        !response_of(packet_bytes(code, internal, id, payload)),
        acknum_of(packet_bytes(code, internal, id, payload)) == 0,
{
    let p = packet_bytes(code, internal, id, payload);
    let body = packet_body(code, internal, id, payload);
    let idl = id.len() as int;
    let dl = payload.len() as int;
    assert(p.take(HEADER_SIZE as int) =~= header_bytes(code, internal, idl, dl));
    lemma_header_fields(p, code, internal, idl, dl);
    assert(msg_id_of(p) =~= id);
    assert(payload_of(p) =~= payload);
    assert(p.take(body_end_of(p)) =~= body);
    let crc = crc16_ccitt_false(body);
    assert(p[body_end_of(p)] == (crc % 256) as u8);
    assert(p[body_end_of(p) + 1] == (crc / 256) as u8);
    assert(checksum_field_of(p) == crc);
}

/// Builds an outgoing packet in `buf` (header, id, payload, checksum) and
/// returns its COBS frame. `buf` is scratch space: the packet takes its first
/// bytes.
pub fn encode_packet(buf: &mut Vec<u8>, typ: MsgType, data_len: u16, internal: bool, id: &[u8], payload: &[u8]) -> (frame: Vec<u8>)
    requires
        packet_fits(msg_type_code(typ), id@, payload@),
        data_len == payload@.len(),
        old(buf)@.len() >= HEADER_SIZE + id@.len() + payload@.len() + CHECKSUM_SIZE,
    ensures
        final(buf)@.len() == old(buf)@.len(),
        final(buf)@.take(HEADER_SIZE + id@.len() + payload@.len() + CHECKSUM_SIZE) == packet_bytes(
            msg_type_code(typ),
            internal,
            id@,
            payload@,
        ),
        frame@ == frame_bytes(msg_type_code(typ), internal, id@, payload@),
{
    let ghost code = msg_type_code(typ);
    let ghost idl = id@.len() as int;
    let ghost dl = payload@.len() as int;
    let ghost wire = HEADER_SIZE + idl + dl + CHECKSUM_SIZE;
    let c = typ.code();
    write_header(buf, c, data_len, internal, id.len() as u8);
    proof {
        lemma_header_fields(buf@, code, internal, idl, dl);
    }
    let ghost after_header = buf@;
    match write_msg_id(buf, id) {
        Ok(()) => {},
        Err(_) => {
            assert(false);
        },
    }
    let ghost after_id = buf@;
    assert(after_id.take(HEADER_SIZE as int) =~= after_header.take(HEADER_SIZE as int));
    match write_payload(buf, payload) {
        Ok(()) => {},
        Err(_) => {
            assert(false);
        },
    }
    let ghost after_payload = buf@;
    assert(after_payload.take(HEADER_SIZE as int) =~= after_id.take(HEADER_SIZE as int));
    let ghost body = packet_body(code, internal, id@, payload@);
    assert(after_payload.take(HEADER_SIZE + idl + dl) =~= body);
    let crc = match packet_compute_checksum(buf.as_slice()) {
        Ok(crc) => crc,
        Err(_) => {
            assert(false);
            0
        },
    };
    match set_checksum(buf, crc) {
        Ok(()) => {},
        Err(_) => {
            assert(false);
        },
    }
    assert(buf@.take(wire) =~= packet_bytes(code, internal, id@, payload@));
    assert(buf@.take(HEADER_SIZE as int) =~= after_payload.take(HEADER_SIZE as int));
    proof {
        lemma_header_fields(buf@, code, internal, idl, dl);
    }
    match frame_packet(buf.as_slice()) {
        Ok(frame) => {
            assert(buf@.take(wire_size_of(buf@)) == packet_bytes(code, internal, id@, payload@));
            frame
        },
        Err(_) => {
            assert(false);
            Vec::new()
        },
    }
}

/// Frames a packet for the serial line: the COBS encoding of its first
/// `wire_size` bytes, which ends in the only zero byte of the frame. Fails,
/// as `Packet::wire_size` does, on a zero id length.
pub fn frame_packet(pkt: &[u8]) -> (r: Result<Vec<u8>, BoardError>)
    requires
        pkt@.len() >= HEADER_SIZE,
        id_length_of(pkt@) == 0 || wire_size_of(pkt@) <= pkt@.len(),
    ensures
        r is Ok <==> id_length_of(pkt@) != 0,
        r is Err ==> r->Err_0 == BoardError::Packet(wire_size_error(pkt@)),
        r is Ok ==> r.unwrap()@ == cobs_encode(pkt@.take(wire_size_of(pkt@))),
        r is Ok ==> r.unwrap()@.len() <= max_encoded_len_of(wire_size_of(pkt@)),
        r is Ok ==> r.unwrap()@.last() == 0,
        r is Ok ==> forall|i: int| 0 <= i < r.unwrap()@.len() - 1 ==> r.unwrap()@[i] != 0,
{
    let wire_len = match packet_wire_size(pkt) {
        Ok(n) => n,
        Err(e) => {
            return Err(BoardError::Packet(e));
        },
    };
    let frame_len = max_encoded_len(wire_len);
    let mut frame = vec![0u8; frame_len];
    let raw = &pkt[0..wire_len];
    assert(raw@ =~= pkt@.take(wire_size_of(pkt@)));
    let n = encode_buf(raw, &mut frame);
    frame.truncate(n);
    assert(frame@ =~= cobs_encode(pkt@.take(wire_size_of(pkt@))));
    Ok(frame)
}

} // verus!
