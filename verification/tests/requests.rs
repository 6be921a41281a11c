use electricui_embedded::decoder::Decoder;
use electricui_embedded::message::MessageType;
use electricui_embedded::wire::framing::Framing;
use electricui_embedded::wire::packet::Packet;

use eui_board::handler::{eui_packet_handler, TrackedVars};
use eui_board::reply::{send_lit_time, send_tracked_vars};
use eui_board::request::{dispatch_eui_packet, same_bytes, EUiRequest};
use eui_board::rx::{poll_uart_queue, rx_event_of, RxEvent};
use eui_board::rx_decoder::RxDecoder;
use eui_board::wire::MAX_PACKET_SIZE;
use eui_board::BoardError;

/// A request packet as the host sends it.
fn request(typ: MessageType, internal: bool, response: bool, id: &[u8], payload: &[u8]) -> Vec<u8> {
    let mut buf = vec![0u8; 5 + id.len() + payload.len()];
    let mut p = Packet::new_unchecked(&mut buf[..]);
    p.set_data_length(payload.len() as u16).unwrap();
    p.set_typ(typ);
    p.set_internal(internal);
    p.set_offset(false);
    p.set_id_length(id.len() as u8).unwrap();
    p.set_response(response);
    p.set_acknum(0);
    p.msg_id_mut().unwrap().copy_from_slice(id);
    p.payload_mut().unwrap().copy_from_slice(payload);
    let crc = p.compute_checksum().unwrap();
    p.set_checksum(crc).unwrap();
    buf
}

fn frame(pkt: &[u8]) -> Vec<u8> {
    let mut out = vec![0u8; Framing::max_encoded_len(pkt.len())];
    let n = Framing::encode_buf(pkt, &mut out);
    out.truncate(n);
    out
}

fn dispatch(pkt: &[u8]) -> Option<EUiRequest> {
    dispatch_eui_packet(pkt).unwrap()
}

#[test]
fn same_bytes_compares() {
    assert!(same_bytes(b"abc", b"abc"));
    assert!(!same_bytes(b"abc", b"abd"));
    assert!(!same_bytes(b"ab", b"abc"));
    assert!(same_bytes(b"", b""));
}

#[test]
fn heartbeat_request() {
    let pkt = request(MessageType::U8, true, true, b"h", &[3]);
    assert_eq!(dispatch(&pkt), Some(EUiRequest::HeartBeat(3)));
    // Without the response flag, or not internal, the heartbeat is ignored.
    let pkt = request(MessageType::U8, true, false, b"h", &[3]);
    assert_eq!(dispatch(&pkt), None);
    let pkt = request(MessageType::U8, false, true, b"h", &[3]);
    assert_eq!(dispatch(&pkt), None);
}

#[test]
fn board_id_and_name_requests() {
    let pkt = request(MessageType::U8, true, true, b"i", &[]);
    assert_eq!(dispatch(&pkt), Some(EUiRequest::BoardId));
    let pkt = request(MessageType::Callback, false, true, b"name", &[]);
    assert_eq!(dispatch(&pkt), Some(EUiRequest::BoardName));
    let pkt = request(MessageType::Callback, true, true, b"name", &[]);
    assert_eq!(dispatch(&pkt), None);
}

#[test]
fn announce_and_send_variables_requests() {
    // These need only the internal flag.
    let pkt = request(MessageType::Callback, true, false, b"t", &[]);
    assert_eq!(dispatch(&pkt), Some(EUiRequest::AnnounceIds));
    let pkt = request(MessageType::Callback, true, true, b"w", &[]);
    assert_eq!(dispatch(&pkt), Some(EUiRequest::SendVariables));
    let pkt = request(MessageType::Callback, false, true, b"w", &[]);
    assert_eq!(dispatch(&pkt), None);
}

#[test]
fn led_state_query() {
    let pkt = request(MessageType::U8, false, true, b"led_state", &[]);
    assert_eq!(dispatch(&pkt), Some(EUiRequest::QueryLedState));
    let pkt = request(MessageType::U8, false, false, b"led_state", &[]);
    assert_eq!(dispatch(&pkt), None);
}

#[test]
fn lit_time_write() {
    let pkt = request(MessageType::U16, false, true, b"lit_time", &[0x2C, 0x01]);
    assert_eq!(dispatch(&pkt), Some(EUiRequest::SetLitTime(300)));
    // Only a two byte payload is taken.
    let pkt = request(MessageType::U16, false, true, b"lit_time", &[0x2C]);
    assert_eq!(dispatch(&pkt), None);
    let pkt = request(MessageType::U16, false, true, b"lit_time", &[0x2C, 0x01, 0]);
    assert_eq!(dispatch(&pkt), None);
}

#[test]
fn unknown_ids_are_ignored() {
    let pkt = request(MessageType::U8, false, true, b"led_blink", &[1]);
    assert_eq!(dispatch(&pkt), None);
    let pkt = request(MessageType::U8, true, true, b"o", &[]);
    assert_eq!(dispatch(&pkt), None);
}

#[test]
fn unreadable_id_fails() {
    let pkt = request(MessageType::U8, true, true, &[0], &[]);
    assert!(matches!(dispatch_eui_packet(&pkt), Err(BoardError::Packet(_))));
}

#[test]
fn poll_decodes_and_dispatches() {
    let mut stream = Vec::new();
    stream.extend(frame(&request(MessageType::U8, true, true, b"h", &[9])));
    stream.extend(frame(&request(MessageType::U16, false, true, b"lit_time", &[0xE8, 0x03])));
    stream.extend(frame(&request(MessageType::U8, false, true, b"nothing", &[])));
    let mut storage = [0u8; 1100];
    let mut dec = RxDecoder::new(Decoder::new(&mut storage));
    let events = poll_uart_queue(&mut dec, &stream);
    assert_eq!(events.len(), 3);
    let outcomes: Vec<_> = events
        .into_iter()
        .map(|e| match e {
            RxEvent::Packet { outcome, .. } => outcome.unwrap(),
            RxEvent::DecodeFailed(_) => panic!("decoder refused a good frame"),
        })
        .collect();
    assert_eq!(outcomes, vec![Some(EUiRequest::HeartBeat(9)), Some(EUiRequest::SetLitTime(1000)), None]);
}

#[test]
fn poll_heartbeat_without_value() {
    let stream = frame(&request(MessageType::U8, true, true, b"h", &[]));
    let mut storage = [0u8; 64];
    let mut dec = RxDecoder::new(Decoder::new(&mut storage));
    let events = poll_uart_queue(&mut dec, &stream);
    assert_eq!(events.len(), 1);
    assert!(matches!(
        &events[0],
        RxEvent::Packet { outcome: Err(BoardError::MissingHeartbeatValue), .. }
    ));
}

#[test]
fn poll_bad_checksum() {
    let mut pkt = request(MessageType::U8, true, true, b"h", &[9]);
    let last = pkt.len() - 1;
    pkt[last] ^= 0x55;
    let stream = frame(&pkt);
    let mut storage = [0u8; 64];
    let mut dec = RxDecoder::new(Decoder::new(&mut storage));
    let events = poll_uart_queue(&mut dec, &stream);
    assert_eq!(events.len(), 1);
    assert!(matches!(&events[0], RxEvent::DecodeFailed(BoardError::Decoder(_))));
}

#[test]
fn poll_frame_too_large_for_decoder() {
    let stream = frame(&request(MessageType::U8, false, true, b"led_state", &[]));
    let mut storage = [0u8; 6];
    let mut dec = RxDecoder::new(Decoder::new(&mut storage));
    let events = poll_uart_queue(&mut dec, &stream);
    assert!(events.iter().all(|e| matches!(e, RxEvent::DecodeFailed(BoardError::Decoder(_)))));
    assert!(!events.is_empty());
}

#[test]
fn poll_zero_bytes_only() {
    let mut storage = [0u8; 16];
    let mut dec = RxDecoder::new(Decoder::new(&mut storage));
    assert!(poll_uart_queue(&mut dec, &[0, 0, 0]).is_empty());
    assert!(poll_uart_queue(&mut dec, &[]).is_empty());
}

#[test]
fn tracked_vars_start_values() {
    let vars = TrackedVars::new();
    assert_eq!(vars, TrackedVars { blink_enable: 1, led_state: 0, glow_time: 200 });
}

#[test]
fn handler_set_lit_time_writes_and_answers() {
    let mut vars = TrackedVars::new();
    let mut buf = vec![0u8; MAX_PACKET_SIZE];
    let frames = eui_packet_handler(EUiRequest::SetLitTime(750), &mut vars, &mut buf);
    assert_eq!(vars, TrackedVars { blink_enable: 1, led_state: 0, glow_time: 750 });
    let mut other = vec![0u8; MAX_PACKET_SIZE];
    assert_eq!(frames, vec![send_lit_time(&mut other, 750)]);

    // Reading the variables afterwards reports the new value.
    let frames = eui_packet_handler(EUiRequest::SendVariables, &mut vars, &mut buf);
    assert_eq!(frames, send_tracked_vars(&mut other, 1, 0, 750));
}

#[test]
fn handler_other_requests_leave_variables() {
    let requests = [
        EUiRequest::HeartBeat(1),
        EUiRequest::BoardId,
        EUiRequest::BoardName,
        EUiRequest::AnnounceIds,
        EUiRequest::SendVariables,
        EUiRequest::QueryLedState,
    ];
    let counts = [1usize, 1, 1, 2, 4, 1];
    for (req, count) in requests.iter().zip(counts.iter()) {
        let mut vars = TrackedVars { blink_enable: 0, led_state: 1, glow_time: 42 };
        let mut buf = vec![0u8; MAX_PACKET_SIZE];
        let frames = eui_packet_handler(*req, &mut vars, &mut buf);
        assert_eq!(vars, TrackedVars { blink_enable: 0, led_state: 1, glow_time: 42 });
        assert_eq!(frames.len(), *count);
    }
}

#[test]
fn query_answered_under_its_id() {
    let queries: [(&[u8], bool, &[u8]); 4] = [
        (b"h", true, &[0x42]),
        (b"i", true, &[]),
        (b"led_state", false, &[]),
        (b"lit_time", false, &[0x10, 0x27]),
    ];
    for (id, internal, payload) in queries.iter() {
        let pkt = request(MessageType::U8, *internal, true, id, payload);
        let req = dispatch(&pkt).unwrap();
        let mut vars = TrackedVars::new();
        let mut buf = vec![0u8; MAX_PACKET_SIZE];
        let frames = eui_packet_handler(req, &mut vars, &mut buf);
        assert_eq!(frames.len(), 1);
        let mut storage = [0u8; 64];
        let mut dec = Decoder::new(&mut storage);
        let mut answer = None;
        for b in frames[0].iter() {
            if let Some(p) = dec.decode(*b).unwrap() {
                answer = Some(p.as_ref().to_vec());
            }
        }
        let answer = answer.unwrap();
        let p = Packet::new(&answer[..]).unwrap();
        assert_eq!(p.msg_id().unwrap().as_bytes(), *id);
        assert!(!p.response());
        if !payload.is_empty() {
            assert_eq!(p.payload().unwrap(), *payload);
        }
    }
}

/// Header fields of a reply frame: (DataLen, Type, Int, IdLen, Resp, Acknum).
fn reply_header(frame: &[u8]) -> (u16, u8, bool, u8, bool, u8) {
    let mut storage = [0u8; 128];
    let mut dec = Decoder::new(&mut storage);
    for b in frame.iter() {
        if let Some(p) = dec.decode(*b).unwrap() {
            return (p.data_length(), p.typ_raw(), p.internal(), p.id_length_raw(), p.response(), p.acknum());
        }
    }
    panic!("frame did not decode");
}

#[test]
fn session_reply_headers() {
    let mut vars = TrackedVars::new();
    let mut buf = vec![0u8; MAX_PACKET_SIZE];
    let mut headers = |req: EUiRequest, vars: &mut TrackedVars| -> Vec<(u16, u8, bool, u8, bool, u8)> {
        eui_packet_handler(req, vars, &mut buf).iter().map(|f| reply_header(f)).collect()
    };
    assert_eq!(headers(EUiRequest::BoardId, &mut vars), vec![(2, 8, true, 1, false, 0)]);
    assert_eq!(headers(EUiRequest::BoardName, &mut vars), vec![(8, 4, false, 4, false, 0)]);
    assert_eq!(
        headers(EUiRequest::AnnounceIds, &mut vars),
        vec![(38, 1, true, 1, false, 0), (1, 6, true, 1, false, 0)]
    );
    assert_eq!(
        headers(EUiRequest::SendVariables, &mut vars),
        vec![
            (1, 6, false, 9, false, 0),
            (1, 6, false, 9, false, 0),
            (2, 8, false, 8, false, 0),
            (8, 4, false, 8, false, 0),
        ]
    );
    assert_eq!(headers(EUiRequest::HeartBeat(1), &mut vars), vec![(1, 6, true, 1, false, 0)]);
    assert_eq!(headers(EUiRequest::QueryLedState, &mut vars), vec![(1, 6, false, 9, false, 0)]);
    assert_eq!(headers(EUiRequest::SetLitTime(500), &mut vars), vec![(2, 8, false, 8, false, 0)]);
}

#[test]
fn rx_event_of_each_outcome() {
    assert!(rx_event_of(Ok(None)).is_none());
    let err = electricui_embedded::decoder::Error::InsufficientBufferSize;
    assert!(matches!(rx_event_of(Err(err)), Some(RxEvent::DecodeFailed(BoardError::Decoder(_)))));
    let pkt = request(MessageType::U8, false, true, b"led_state", &[]);
    match rx_event_of(Ok(Some(pkt.clone()))) {
        Some(RxEvent::Packet { packet, outcome }) => {
            assert_eq!(packet, pkt);
            assert_eq!(outcome.unwrap(), Some(EUiRequest::QueryLedState));
        }
        _ => panic!("a decoded packet must be reported"),
    }
    let empty_heartbeat = request(MessageType::U8, true, true, b"h", &[]);
    assert!(matches!(
        rx_event_of(Ok(Some(empty_heartbeat))),
        Some(RxEvent::Packet { outcome: Err(BoardError::MissingHeartbeatValue), .. })
    ));
}

#[test]
fn poll_goes_on_after_errors() {
    let mut bad = request(MessageType::U8, true, true, b"h", &[9]);
    let last = bad.len() - 1;
    bad[last] ^= 0x55;
    let mut stream = Vec::new();
    stream.extend(frame(&bad));
    stream.extend(frame(&request(MessageType::U8, true, true, &[0], &[])));
    stream.extend(frame(&request(MessageType::U8, false, true, b"led_state", &[])));
    let mut storage = [0u8; 64];
    let mut dec = RxDecoder::new(Decoder::new(&mut storage));
    let events = poll_uart_queue(&mut dec, &stream);
    assert_eq!(events.len(), 3);
    assert!(matches!(&events[0], RxEvent::DecodeFailed(BoardError::Decoder(_))));
    assert!(matches!(&events[1], RxEvent::Packet { outcome: Err(BoardError::Packet(_)), .. }));
    assert!(matches!(&events[2], RxEvent::Packet { outcome: Ok(Some(EUiRequest::QueryLedState)), .. }));
}

#[test]
fn poll_across_calls() {
    // A frame split over two calls is decoded once its last byte arrives.
    let stream = frame(&request(MessageType::U8, true, true, b"i", &[]));
    let (first, second) = stream.split_at(4);
    let mut storage = [0u8; 64];
    let mut dec = RxDecoder::new(Decoder::new(&mut storage));
    assert!(poll_uart_queue(&mut dec, first).is_empty());
    let events = poll_uart_queue(&mut dec, second);
    assert_eq!(events.len(), 1);
    assert!(matches!(&events[0], RxEvent::Packet { outcome: Ok(Some(EUiRequest::BoardId)), .. }));
}
