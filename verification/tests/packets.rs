use electricui_embedded::message::MessageType;
use electricui_embedded::wire::framing::Framing;
use electricui_embedded::wire::packet::Packet;

use eui_board::ids::{led_blink, led_state, lit_time, my_board};
use eui_board::packet::{encode_packet, frame_packet};
use eui_board::reply::{
    nul_terminated_list, send_board_id, send_board_name, send_heartbeat, send_id_list,
    send_led_state, send_lit_time, send_tracked_vars,
};
use eui_board::wire::{MsgType, MAX_PACKET_SIZE};
use eui_board::BoardError;

/// A packet built with the outside crate's own API, as a reference.
fn reference_packet(typ: MessageType, internal: bool, id: &[u8], payload: &[u8]) -> Vec<u8> {
    let mut buf = vec![0u8; 5 + id.len() + payload.len()];
    let mut p = Packet::new_unchecked(&mut buf[..]);
    p.set_data_length(payload.len() as u16).unwrap();
    p.set_typ(typ);
    p.set_internal(internal);
    p.set_offset(false);
    p.set_id_length(id.len() as u8).unwrap();
    p.set_response(false);
    p.set_acknum(0);
    p.msg_id_mut().unwrap().copy_from_slice(id);
    p.payload_mut().unwrap().copy_from_slice(payload);
    let crc = p.compute_checksum().unwrap();
    p.set_checksum(crc).unwrap();
    buf
}

fn reference_frame(pkt: &[u8]) -> Vec<u8> {
    let mut out = vec![0u8; Framing::max_encoded_len(pkt.len())];
    let n = Framing::encode_buf(pkt, &mut out);
    out.truncate(n);
    out
}

fn scratch() -> Vec<u8> {
    vec![0xFFu8; MAX_PACKET_SIZE]
}

// Known bytes of a packet of type F32, id "abc", payload 42.42f32, acknum 0
// (from the ElectricUI wire format's own examples).
const MSG_F32: [u8; 14] = [
    0x0D, 0x04, 0x2c, 0x03, 0x61, 0x62, 0x63, 0x14, 0xAE, 0x29, 0x42, 0x8B, 0x1D, 0x00,
];

#[test]
fn msg_type_codes() {
    assert_eq!(MsgType::Callback.code(), 0);
    assert_eq!(MsgType::Custom.code(), 1);
    assert_eq!(MsgType::Char.code(), 4);
    assert_eq!(MsgType::U8.code(), 6);
    assert_eq!(MsgType::U16.code(), 8);
    assert_eq!(MsgType::Float32.code(), 11);
    assert_eq!(MsgType::Float64.code(), 12);
    assert_eq!(MsgType::Unknown(13).code(), 13);
    for code in 0u8..=12 {
        let t = MessageType::from(code);
        assert_eq!(u8::from(t), code);
    }
}

#[test]
fn encode_packet_known_bytes() {
    let mut buf = scratch();
    let payload = [0x14u8, 0xAE, 0x29, 0x42];
    let frame = encode_packet(&mut buf, MsgType::Float32, 4, false, b"abc", &payload);
    assert_eq!(&buf[..12], &MSG_F32[1..13]);
    assert_eq!(frame, MSG_F32.to_vec());
    assert_eq!(buf.len(), MAX_PACKET_SIZE);
    assert!(buf[12..].iter().all(|b| *b == 0xFF));
}

#[test]
fn encode_packet_internal_flag_and_type_bits() {
    let mut buf = scratch();
    let frame = encode_packet(&mut buf, MsgType::U8, 1, true, b"h", &[7]);
    assert_eq!(buf[0], 1);
    assert_eq!(buf[1], (6 << 2) | 0x40);
    assert_eq!(buf[2], 1);
    assert_eq!(buf[3], b'h');
    assert_eq!(buf[4], 7);
    let p = Packet::new(&buf[..7]).unwrap();
    assert!(p.internal());
    assert!(!p.response());
    assert!(!p.offset());
    assert_eq!(p.acknum(), 0);
    assert_eq!(p.typ(), MessageType::U8);
    assert_eq!(frame, reference_frame(&buf[..7]));
}

#[test]
fn encode_packet_longest_payload() {
    let mut buf = scratch();
    let payload = vec![0xAB; 1023];
    let id = [b'x'; 15];
    let frame = encode_packet(&mut buf, MsgType::Byte, 1023, false, &id, &payload);
    let expected = reference_packet(MessageType::Byte, false, &id, &payload);
    assert_eq!(&buf[..expected.len()], &expected[..]);
    assert_eq!(frame, reference_frame(&expected));
    assert!(frame.len() <= Framing::max_encoded_len(expected.len()));
}

#[test]
fn frame_packet_of_a_packet() {
    let pkt = reference_packet(MessageType::U8, false, b"led_state", &[1]);
    let mut with_tail = pkt.clone();
    with_tail.extend_from_slice(&[9, 9, 9]);
    let frame = frame_packet(&with_tail).unwrap();
    assert_eq!(frame, reference_frame(&pkt));
    assert_eq!(*frame.last().unwrap(), 0);
    assert!(frame[..frame.len() - 1].iter().all(|b| *b != 0));
}

#[test]
fn frame_packet_zero_id_length_fails() {
    let pkt = [0u8, 0, 0, 0, 0];
    assert!(matches!(frame_packet(&pkt), Err(BoardError::Packet(_))));
}

#[test]
fn heartbeat_reply() {
    let mut buf = scratch();
    let frame = send_heartbeat(&mut buf, 0x5A);
    let expected = reference_packet(MessageType::U8, true, b"h", &[0x5A]);
    assert_eq!(&buf[..expected.len()], &expected[..]);
    assert_eq!(frame, reference_frame(&expected));
}

#[test]
fn board_id_reply() {
    let mut buf = scratch();
    let frame = send_board_id(&mut buf);
    let expected = reference_packet(MessageType::U16, true, b"i", &[0xEF, 0xBE]);
    assert_eq!(frame, reference_frame(&expected));
}

#[test]
fn board_name_reply() {
    let mut buf = scratch();
    let frame = send_board_name(&mut buf);
    let expected = reference_packet(MessageType::Char, false, b"name", b"my-board");
    assert_eq!(frame, reference_frame(&expected));
}

#[test]
fn nul_terminated_ids() {
    let list = vec![b"ab".to_vec(), b"c".to_vec()];
    assert_eq!(nul_terminated_list(&list), b"ab\0c\0".to_vec());
    assert_eq!(nul_terminated_list(&Vec::new()), Vec::<u8>::new());
}

#[test]
fn id_list_reply() {
    let mut buf = scratch();
    let frames = send_id_list(&mut buf);
    assert_eq!(frames.len(), 2);
    let list = b"led_blink\0led_state\0lit_time\0my-board\0";
    assert_eq!(list.len(), 38);
    let first = reference_packet(MessageType::Custom, true, b"u", list);
    let second = reference_packet(MessageType::U8, true, b"v", &[4]);
    assert_eq!(frames[0], reference_frame(&first));
    assert_eq!(frames[1], reference_frame(&second));
}

#[test]
fn tracked_vars_reply() {
    let mut buf = scratch();
    let frames = send_tracked_vars(&mut buf, 1, 0, 0x1234);
    assert_eq!(frames.len(), 4);
    let expected = [
        reference_packet(MessageType::U8, false, b"led_blink", &[1]),
        reference_packet(MessageType::U8, false, b"led_state", &[0]),
        reference_packet(MessageType::U16, false, b"lit_time", &[0x34, 0x12]),
        reference_packet(MessageType::Char, false, b"my-board", b"my-board"),
    ];
    for (frame, pkt) in frames.iter().zip(expected.iter()) {
        assert_eq!(*frame, reference_frame(pkt));
    }
}

#[test]
fn led_state_and_lit_time_replies() {
    let mut buf = scratch();
    let frame = send_led_state(&mut buf, 1);
    assert_eq!(frame, reference_frame(&reference_packet(MessageType::U8, false, b"led_state", &[1])));
    let frame = send_lit_time(&mut buf, 200);
    assert_eq!(frame, reference_frame(&reference_packet(MessageType::U16, false, b"lit_time", &[200, 0])));
}

#[test]
fn board_ids() {
    assert_eq!(led_blink(), b"led_blink".to_vec());
    assert_eq!(led_state(), b"led_state".to_vec());
    assert_eq!(lit_time(), b"lit_time".to_vec());
    assert_eq!(my_board(), b"my-board".to_vec());
}

#[test]
fn built_packets_are_accepted_and_read_back() {
    let mut buf = scratch();
    let frame = send_lit_time(&mut buf, 0xBEEF);
    let p = Packet::new(&buf[..15]).unwrap();
    assert_eq!(p.data_length(), 2);
    assert_eq!(p.typ(), MessageType::U16);
    assert!(!p.internal());
    assert!(!p.response());
    assert_eq!(p.msg_id().unwrap(), b"lit_time");
    assert_eq!(p.payload().unwrap(), &[0xEF, 0xBE]);
    assert_eq!(p.checksum().unwrap(), p.compute_checksum().unwrap());
    assert_eq!(p.wire_size().unwrap(), 15);

    let mut storage = [0u8; 64];
    let mut dec = electricui_embedded::decoder::Decoder::new(&mut storage);
    let mut decoded = None;
    for b in frame.iter() {
        if let Some(pkt) = dec.decode(*b).unwrap() {
            decoded = Some(pkt.as_ref().to_vec());
        }
    }
    assert_eq!(decoded.unwrap(), buf[..15].to_vec());
}
