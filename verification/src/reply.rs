//! The packets that the board sends back, each built in the scratch buffer
//! and framed for the serial line.
use vstd::prelude::*;

use crate::endian::u16_le_bytes;
use crate::ids;
use crate::framing::cobs_encode;
use crate::packet::{encode_packet, frame_bytes, lemma_built_packet_reads_back, packet_bytes};
use crate::wire::{
    array_wire_size_hint, internal_of, msg_type_code, payload_of, response_of, typ_of, MsgType,
    MAX_PACKET_SIZE,
};

verus! {

/// Wire number of `MsgType::Custom`.
pub open spec fn custom_code() -> u8 {
    msg_type_code(MsgType::Custom)
}

/// Wire number of `MsgType::Char`.
pub open spec fn char_code() -> u8 {
    msg_type_code(MsgType::Char)
}

/// Wire number of `MsgType::U8`.
pub open spec fn u8_code() -> u8 {
    msg_type_code(MsgType::U8)
}

/// Wire number of `MsgType::U16`.
pub open spec fn u16_code() -> u8 {
    msg_type_code(MsgType::U16)
}

/// The little endian bytes of a `u16`.
pub open spec fn le_bytes(v: u16) -> Seq<u8> {
    seq![(v % 256) as u8, (v / 256) as u8]
}

/// Ids separated and ended by a zero byte each.
pub open spec fn nul_terminated(list: Seq<Seq<u8>>) -> Seq<u8>
    decreases list.len(),
{
    if list.len() == 0 {
        Seq::empty()
    } else {
        nul_terminated(list.drop_last()) + list.last() + seq![0u8]
    }
}

/// The writable ids of the board, in the order they are announced.
pub open spec fn writable_ids() -> Seq<Seq<u8>> {
    seq![ids::led_blink_id(), ids::led_state_id(), ids::lit_time_id(), ids::my_board_id()]
}

/// Frame echoing a heartbeat.
pub open spec fn heartbeat_frame(value: u8) -> Seq<u8> {
    frame_bytes(u8_code(), true, ids::heartbeat_id(), seq![value])
}

/// Frame answering the board id query.
pub open spec fn board_id_frame() -> Seq<u8> {
    frame_bytes(u16_code(), true, ids::board_id_id(), le_bytes(ids::BOARD_ID))
}

/// Frame answering the board name query.
pub open spec fn board_name_frame() -> Seq<u8> {
    frame_bytes(char_code(), false, ids::board_name_id(), ids::my_board_id())
}

/// Frames announcing the writable ids: the list, then its end with the
/// number of ids.
pub open spec fn id_list_frames() -> Seq<Seq<u8>> {
    seq![
        frame_bytes(custom_code(), true, ids::id_list_id(), nul_terminated(writable_ids())),
        frame_bytes(u8_code(), true, ids::id_list_end_id(), seq![writable_ids().len() as u8]),
    ]
}

/// Frame carrying the LED state.
pub open spec fn led_state_frame(led_state: u8) -> Seq<u8> {
    frame_bytes(u8_code(), false, ids::led_state_id(), seq![led_state])
}

/// Frame carrying the lit time.
pub open spec fn lit_time_frame(glow_time: u16) -> Seq<u8> {
    frame_bytes(u16_code(), false, ids::lit_time_id(), le_bytes(glow_time))
}

/// Frames carrying every writable variable: the blink switch, the LED state,
/// the lit time and the board name.
pub open spec fn tracked_vars_frames(blink_enable: u8, led_state: u8, glow_time: u16) -> Seq<Seq<u8>> {
    seq![
        frame_bytes(u8_code(), false, ids::led_blink_id(), seq![blink_enable]),
        led_state_frame(led_state),
        lit_time_frame(glow_time),
        frame_bytes(char_code(), false, ids::my_board_id(), ids::my_board_id()),
    ]
}

/// The frames of a list of frames, as byte strings.
pub open spec fn frames_view(frames: Seq<Vec<u8>>) -> Seq<Seq<u8>> {
    frames.map_values(|f: Vec<u8>| f@)
}

/// Echoes a heartbeat value.
pub fn send_heartbeat(buf: &mut Vec<u8>, value: u8) -> (frame: Vec<u8>)
    requires
        old(buf)@.len() >= MAX_PACKET_SIZE,
    ensures
        final(buf)@.len() == old(buf)@.len(),
        frame@ == heartbeat_frame(value),
{
    let typ = MsgType::U8;
    let data_len = array_wire_size_hint(typ.code(), 1) as u16;
    let payload = vec![value];
    assert(payload@ =~= seq![value]);
    encode_packet(buf, typ, data_len, true, ids::heartbeat(), payload.as_slice())
}

/// Answers the board id query with the board id, little endian.
pub fn send_board_id(buf: &mut Vec<u8>) -> (frame: Vec<u8>)
    requires
        old(buf)@.len() >= MAX_PACKET_SIZE,
    ensures
        final(buf)@.len() == old(buf)@.len(),
        frame@ == board_id_frame(),
{
    let typ = MsgType::U16;
    let data_len = array_wire_size_hint(typ.code(), 1) as u16;
    let payload = u16_le_bytes(ids::BOARD_ID);
    encode_packet(buf, typ, data_len, true, ids::board_id(), payload.as_slice())
}

/// Answers the board name query with the board's name.
pub fn send_board_name(buf: &mut Vec<u8>) -> (frame: Vec<u8>)
    requires
        old(buf)@.len() >= MAX_PACKET_SIZE,
    ensures
        final(buf)@.len() == old(buf)@.len(),
        frame@ == board_name_frame(),
{
    let name = ids::my_board();
    let data_len = name.len() as u16;
    encode_packet(buf, MsgType::Char, data_len, false, ids::board_name(), name.as_slice())
}

/// The ids of `list`, each followed by a zero byte.
pub fn nul_terminated_list(list: &Vec<Vec<u8>>) -> (r: Vec<u8>)
    ensures
        r@ == nul_terminated(frames_view(list@)),
{
    let mut r: Vec<u8> = Vec::new();
    let mut i: usize = 0;
    while i < list.len()
        invariant
            0 <= i <= list@.len(),
            r@ == nul_terminated(frames_view(list@.take(i as int))),
        decreases list@.len() - i,
    {
        let id = &list[i];
        let mut j: usize = 0;
        let ghost before = r@;
        while j < id.len()
            invariant
                0 <= j <= id@.len(),
                r@ == before + id@.take(j as int),
            decreases id@.len() - j,
        {
            r.push(id[j]);
            j = j + 1;
            assert(r@ =~= before + id@.take(j as int));
        }
        r.push(0u8);
        assert(id@.take(id@.len() as int) =~= id@);
        assert(list@.take(i + 1).drop_last() =~= list@.take(i as int));
        assert(frames_view(list@.take(i + 1)).drop_last() =~= frames_view(list@.take(i as int)));
        assert(frames_view(list@.take(i + 1)).last() == list@[i as int]@);
        i = i + 1;
    }
    assert(list@.take(list@.len() as int) =~= list@);
    r
}

/// Announces the writable ids: a list of them, each ended by a zero byte,
/// then the end of the list with the number of ids.
pub fn send_id_list(buf: &mut Vec<u8>) -> (frames: Vec<Vec<u8>>)
    requires
        old(buf)@.len() >= MAX_PACKET_SIZE,
    ensures
        final(buf)@.len() == old(buf)@.len(),
        frames_view(frames@) == id_list_frames(),
{
    let mut list: Vec<Vec<u8>> = Vec::new();
    list.push(ids::led_blink());
    list.push(ids::led_state());
    list.push(ids::lit_time());
    list.push(ids::my_board());
    assert(frames_view(list@) =~= writable_ids());
    let data = nul_terminated_list(&list);
    proof {
        reveal_with_fuel(nul_terminated, 5);
    }
    assert(data@.len() == 38);
    let data_len = (list[0].len() + list[1].len() + list[2].len() + list[3].len() + 4) as u16;
    let first = encode_packet(buf, MsgType::Custom, data_len, true, ids::id_list(), data.as_slice());
    let count = vec![list.len() as u8];
    assert(count@ =~= seq![writable_ids().len() as u8]);
    let second = encode_packet(buf, MsgType::U8, 1, true, ids::id_list_end(), count.as_slice());
    let mut frames: Vec<Vec<u8>> = Vec::new();
    frames.push(first);
    frames.push(second);
    assert(frames_view(frames@) =~= id_list_frames());
    frames
}

/// Sends every writable variable: the blink switch, the LED state, the lit
/// time and the board name.
pub fn send_tracked_vars(buf: &mut Vec<u8>, blink_enable: u8, led_state: u8, glow_time: u16) -> (frames: Vec<Vec<u8>>)
    requires
        old(buf)@.len() >= MAX_PACKET_SIZE,
    ensures
        final(buf)@.len() == old(buf)@.len(),
        frames_view(frames@) == tracked_vars_frames(blink_enable, led_state, glow_time),
{
    let mut frames: Vec<Vec<u8>> = Vec::new();
    let one = array_wire_size_hint(MsgType::U8.code(), 1) as u16;
    let value = vec![blink_enable];
    assert(value@ =~= seq![blink_enable]);
    let led_blink = ids::led_blink();
    frames.push(encode_packet(buf, MsgType::U8, one, false, led_blink.as_slice(), value.as_slice()));
    frames.push(send_led_state(buf, led_state));
    frames.push(send_lit_time(buf, glow_time));
    let name = ids::my_board();
    let name_len = array_wire_size_hint(MsgType::Char.code(), name.len()) as u16;
    frames.push(encode_packet(buf, MsgType::Char, name_len, false, name.as_slice(), name.as_slice()));
    assert(frames_view(frames@) =~= tracked_vars_frames(blink_enable, led_state, glow_time));
    frames
}

/// Sends the LED state.
pub fn send_led_state(buf: &mut Vec<u8>, led_state: u8) -> (frame: Vec<u8>)
    requires
        old(buf)@.len() >= MAX_PACKET_SIZE,
    ensures
        final(buf)@.len() == old(buf)@.len(),
        frame@ == led_state_frame(led_state),
{
    let value = vec![led_state];
    assert(value@ =~= seq![led_state]);
    let id = ids::led_state();
    encode_packet(buf, MsgType::U8, 1, false, id.as_slice(), value.as_slice())
}

/// Sends the lit time, little endian.
pub fn send_lit_time(buf: &mut Vec<u8>, glow_time: u16) -> (frame: Vec<u8>)
    requires
        old(buf)@.len() >= MAX_PACKET_SIZE,
    ensures
        final(buf)@.len() == old(buf)@.len(),
        frame@ == lit_time_frame(glow_time),
{
    let value = u16_le_bytes(glow_time);
    let id = ids::lit_time();
    encode_packet(buf, MsgType::U16, 2, false, id.as_slice(), value.as_slice())
}

/// Each reply frame is the COBS frame of the packet the protocol asks for,
/// with the values it carries: the heartbeat echo is an internal U8 packet
/// "h" with the echoed value; the board id an internal U16 packet "i" with
/// 0xBEEF, low byte first; the board name a Char packet "name" with
/// "my-board"; the LED state a U8 packet "led_state" with the state; the lit
/// time a U16 packet "lit_time" with the time, low byte first; none of them
/// is a query.
pub proof fn lemma_reply_frames_carry_values(value: u8, led_state: u8, glow_time: u16)
    ensures
        heartbeat_frame(value) == cobs_encode(packet_bytes(6u8, true, seq![0x68u8], seq![value])),
        internal_of(packet_bytes(6u8, true, seq![0x68u8], seq![value])),
        typ_of(packet_bytes(6u8, true, seq![0x68u8], seq![value])) == 6,
        payload_of(packet_bytes(6u8, true, seq![0x68u8], seq![value])) == seq![value],
        !response_of(packet_bytes(6u8, true, seq![0x68u8], seq![value])),
        board_id_frame() == cobs_encode(packet_bytes(8u8, true, seq![0x69u8], seq![0xEFu8, 0xBEu8])),
        board_name_frame() == cobs_encode(packet_bytes(4u8, false, seq![0x6eu8, 0x61, 0x6d, 0x65], seq![0x6du8, 0x79, 0x2d, 0x62, 0x6f, 0x61, 0x72, 0x64])),
        led_state_frame(led_state) == cobs_encode(packet_bytes(6u8, false, seq![0x6cu8, 0x65, 0x64, 0x5f, 0x73, 0x74, 0x61, 0x74, 0x65], seq![led_state])),
        payload_of(packet_bytes(6u8, false, seq![0x6cu8, 0x65, 0x64, 0x5f, 0x73, 0x74, 0x61, 0x74, 0x65], seq![led_state])) == seq![led_state],
        lit_time_frame(glow_time) == cobs_encode(
            packet_bytes(8u8, false, seq![0x6cu8, 0x69, 0x74, 0x5f, 0x74, 0x69, 0x6d, 0x65], seq![(glow_time % 256) as u8, (glow_time / 256) as u8]),
        ),
{
    lemma_built_packet_reads_back(6u8, true, seq![0x68u8], seq![value]);
    lemma_built_packet_reads_back(6u8, false, seq![0x6cu8, 0x65, 0x64, 0x5f, 0x73, 0x74, 0x61, 0x74, 0x65], seq![led_state]);
    assert(ids::heartbeat_id() =~= seq![0x68u8]);
    assert(ids::board_id_id() =~= seq![0x69u8]);
    assert(le_bytes(ids::BOARD_ID) =~= seq![0xEFu8, 0xBEu8]);
    assert(ids::board_name_id() =~= seq![0x6eu8, 0x61, 0x6d, 0x65]);
    assert(ids::my_board_id() =~= seq![0x6du8, 0x79, 0x2d, 0x62, 0x6f, 0x61, 0x72, 0x64]);
    assert(ids::led_state_id() =~= seq![0x6cu8, 0x65, 0x64, 0x5f, 0x73, 0x74, 0x61, 0x74, 0x65]);
    assert(ids::lit_time_id() =~= seq![0x6cu8, 0x69, 0x74, 0x5f, 0x74, 0x69, 0x6d, 0x65]);
}

/// Each frame of the tracked-variables answer carries the value of its
/// variable: the blink switch under "led_blink", the LED state under
/// "led_state", the lit time under "lit_time" (low byte first), and the board
/// name under "my-board", in that order; and each packet reads back its value.
pub proof fn lemma_tracked_vars_carry_values(blink_enable: u8, led_state: u8, glow_time: u16)
    ensures
        tracked_vars_frames(blink_enable, led_state, glow_time) == seq![
            cobs_encode(packet_bytes(6u8, false, seq![0x6cu8, 0x65, 0x64, 0x5f, 0x62, 0x6c, 0x69, 0x6e, 0x6b], seq![blink_enable])),
            cobs_encode(packet_bytes(6u8, false, seq![0x6cu8, 0x65, 0x64, 0x5f, 0x73, 0x74, 0x61, 0x74, 0x65], seq![led_state])),
            cobs_encode(
                packet_bytes(8u8, false, seq![0x6cu8, 0x69, 0x74, 0x5f, 0x74, 0x69, 0x6d, 0x65], seq![(glow_time % 256) as u8, (glow_time / 256) as u8]),
            ),
            cobs_encode(packet_bytes(4u8, false, seq![0x6du8, 0x79, 0x2d, 0x62, 0x6f, 0x61, 0x72, 0x64], seq![0x6du8, 0x79, 0x2d, 0x62, 0x6f, 0x61, 0x72, 0x64])),
        ],
        payload_of(packet_bytes(6u8, false, seq![0x6cu8, 0x65, 0x64, 0x5f, 0x62, 0x6c, 0x69, 0x6e, 0x6b], seq![blink_enable])) == seq![blink_enable],
        payload_of(packet_bytes(6u8, false, seq![0x6cu8, 0x65, 0x64, 0x5f, 0x73, 0x74, 0x61, 0x74, 0x65], seq![led_state])) == seq![led_state],
        payload_of(packet_bytes(8u8, false, seq![0x6cu8, 0x69, 0x74, 0x5f, 0x74, 0x69, 0x6d, 0x65], seq![(glow_time % 256) as u8, (glow_time / 256) as u8]))
            == seq![(glow_time % 256) as u8, (glow_time / 256) as u8],
{
    lemma_built_packet_reads_back(6u8, false, seq![0x6cu8, 0x65, 0x64, 0x5f, 0x62, 0x6c, 0x69, 0x6e, 0x6b], seq![blink_enable]);
    lemma_built_packet_reads_back(6u8, false, seq![0x6cu8, 0x65, 0x64, 0x5f, 0x73, 0x74, 0x61, 0x74, 0x65], seq![led_state]);
    lemma_built_packet_reads_back(8u8, false, seq![0x6cu8, 0x69, 0x74, 0x5f, 0x74, 0x69, 0x6d, 0x65], seq![(glow_time % 256) as u8, (glow_time / 256) as u8]);
    assert(ids::led_blink_id() =~= seq![0x6cu8, 0x65, 0x64, 0x5f, 0x62, 0x6c, 0x69, 0x6e, 0x6b]);
    assert(ids::led_state_id() =~= seq![0x6cu8, 0x65, 0x64, 0x5f, 0x73, 0x74, 0x61, 0x74, 0x65]);
    assert(ids::lit_time_id() =~= seq![0x6cu8, 0x69, 0x74, 0x5f, 0x74, 0x69, 0x6d, 0x65]);
    assert(ids::my_board_id() =~= seq![0x6du8, 0x79, 0x2d, 0x62, 0x6f, 0x61, 0x72, 0x64]);
    assert(tracked_vars_frames(blink_enable, led_state, glow_time) =~= seq![
        cobs_encode(packet_bytes(6u8, false, seq![0x6cu8, 0x65, 0x64, 0x5f, 0x62, 0x6c, 0x69, 0x6e, 0x6b], seq![blink_enable])),
        cobs_encode(packet_bytes(6u8, false, seq![0x6cu8, 0x65, 0x64, 0x5f, 0x73, 0x74, 0x61, 0x74, 0x65], seq![led_state])),
        cobs_encode(
            packet_bytes(8u8, false, seq![0x6cu8, 0x69, 0x74, 0x5f, 0x74, 0x69, 0x6d, 0x65], seq![(glow_time % 256) as u8, (glow_time / 256) as u8]),
        ),
        cobs_encode(packet_bytes(4u8, false, seq![0x6du8, 0x79, 0x2d, 0x62, 0x6f, 0x61, 0x72, 0x64], seq![0x6du8, 0x79, 0x2d, 0x62, 0x6f, 0x61, 0x72, 0x64])),
    ]);
}

} // verus!
