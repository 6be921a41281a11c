//! The board's writable variables and how it answers each request.
use vstd::prelude::*;

use crate::reply::{
    board_id_frame, board_name_frame, frames_view, heartbeat_frame, id_list_frames,
    led_state_frame, lit_time_frame, send_board_id, send_board_name, send_heartbeat,
    send_id_list, send_led_state, send_lit_time, send_tracked_vars, tracked_vars_frames,
};
use crate::framing::cobs_encode;
use crate::ids;
use crate::packet::{lemma_built_packet_reads_back, packet_bytes};
use crate::reply::{
    char_code, le_bytes, lemma_reply_frames_carry_values, lemma_tracked_vars_carry_values,
    u16_code, u8_code,
};
use crate::request::{heartbeat_without_value, request_of, unreadable_msg_id, EUiRequest};
use crate::wire::{
    accepted_packet, data_length_of, internal_of, le_u16, msg_id_of, payload_of, response_of,
    typ_of, MAX_PACKET_SIZE,
};

verus! {

/// The variables that the host can read and write.
#[derive(Clone, Copy, Debug, PartialEq, Eq, Structural)]
pub struct TrackedVars {
    /// Whether the LED blinks (non-zero) or stays as it is (zero).
    pub blink_enable: u8,
    /// The LED state: zero is off, one is on.
    pub led_state: u8,
    /// Time, in milliseconds, that the LED stays in one state while blinking.
    pub glow_time: u16,
}

impl TrackedVars {
    /// The variables at start-up: blinking, LED off, 200 ms per state.
    pub fn new() -> (r: TrackedVars)
        ensures
            r == (TrackedVars { blink_enable: 1, led_state: 0, glow_time: 200 }),
    {
        TrackedVars { blink_enable: 1, led_state: 0, glow_time: 200 }
    }
}

/// The variables after a request: only a new lit time writes one.
pub open spec fn vars_after(vars: TrackedVars, req: EUiRequest) -> TrackedVars {
    match req {
        EUiRequest::SetLitTime(v) => TrackedVars {
            blink_enable: vars.blink_enable,
            led_state: vars.led_state,
            glow_time: v,
        },
        _ => vars,
    }
}

/// The frames that answer a request, given the variables after it.
pub open spec fn reply_frames(req: EUiRequest, vars: TrackedVars) -> Seq<Seq<u8>> {
    match req {
        EUiRequest::HeartBeat(v) => seq![heartbeat_frame(v)],
        EUiRequest::BoardId => seq![board_id_frame()],
        EUiRequest::BoardName => seq![board_name_frame()],
        EUiRequest::AnnounceIds => id_list_frames(),
        EUiRequest::SendVariables => tracked_vars_frames(
            vars.blink_enable,
            vars.led_state,
            vars.glow_time,
        ),
        EUiRequest::QueryLedState => seq![led_state_frame(vars.led_state)],
        EUiRequest::SetLitTime(_) => seq![lit_time_frame(vars.glow_time)],
    }
}

/// Carries out a request: updates the variables it writes and returns the
/// frames of the answer, in the order they go out.
pub fn eui_packet_handler(req: EUiRequest, vars: &mut TrackedVars, buf: &mut Vec<u8>) -> (frames: Vec<Vec<u8>>)
    requires
        old(buf)@.len() >= MAX_PACKET_SIZE,
    ensures
        *final(vars) == vars_after(*old(vars), req),
        frames_view(frames@) == reply_frames(req, *final(vars)),
        final(buf)@.len() == old(buf)@.len(),
{
    let mut frames: Vec<Vec<u8>> = Vec::new();
    match req {
        EUiRequest::HeartBeat(val) => {
            frames.push(send_heartbeat(buf, val));
        },
        EUiRequest::BoardId => {
            frames.push(send_board_id(buf));
        },
        EUiRequest::BoardName => {
            frames.push(send_board_name(buf));
        },
        EUiRequest::AnnounceIds => {
            frames = send_id_list(buf);
        },
        EUiRequest::SendVariables => {
            frames = send_tracked_vars(buf, vars.blink_enable, vars.led_state, vars.glow_time);
        },
        EUiRequest::QueryLedState => {
            frames.push(send_led_state(buf, vars.led_state));
        },
        EUiRequest::SetLitTime(new_val) => {
            vars.glow_time = new_val;
            frames.push(send_lit_time(buf, vars.glow_time));
        },
    }
    assert(frames_view(frames@) =~= reply_frames(req, *vars));
    frames
}

/// A written lit time is what the board reports afterwards: after
/// `SetLitTime(v)`, the answer to `SendVariables` carries `v` as the lit time.
pub proof fn lemma_lit_time_write_then_read(vars: TrackedVars, v: u16)
    ensures
        vars_after(vars, EUiRequest::SetLitTime(v)).glow_time == v,
        reply_frames(
            EUiRequest::SendVariables,
            vars_after(vars_after(vars, EUiRequest::SetLitTime(v)), EUiRequest::SendVariables),
        )[2] == lit_time_frame(v),
        reply_frames(EUiRequest::SetLitTime(v), vars_after(vars, EUiRequest::SetLitTime(v)))
            == seq![lit_time_frame(v)],
{
}

/// A query is answered by one packet, under the id it was asked with, that
/// the host accepts and that is not itself a query; a heartbeat is echoed with
/// its value, a lit time write with the same two bytes.
pub proof fn lemma_answer_uses_request_id(p: Seq<u8>, vars: TrackedVars)
    requires
        accepted_packet(p),
        !unreadable_msg_id(p),
        !heartbeat_without_value(p),
        request_of(p) is Some,
        !(request_of(p) == Some(EUiRequest::AnnounceIds)),
        !(request_of(p) == Some(EUiRequest::SendVariables)),
    ensures
        exists|q: Seq<u8>|
            {
                &&& reply_frames(request_of(p)->Some_0, vars_after(vars, request_of(p)->Some_0))
                    == seq![cobs_encode(q)]
                &&& accepted_packet(q)
                &&& msg_id_of(q) == msg_id_of(p)
                &&& !response_of(q)
                &&& request_of(p)->Some_0 is HeartBeat ==> payload_of(q) == payload_of(p).take(1)
                &&& request_of(p)->Some_0 is SetLitTime ==> payload_of(q) == payload_of(p)
                &&& request_of(p)->Some_0 is HeartBeat ==> internal_of(q) && typ_of(q) == 6
                &&& request_of(p)->Some_0 is BoardId ==> internal_of(q) && typ_of(q) == 8
                    && payload_of(q) == seq![0xEFu8, 0xBEu8]
                &&& request_of(p)->Some_0 is BoardName ==> !internal_of(q) && typ_of(q) == 4
                    && payload_of(q) == seq![0x6du8, 0x79, 0x2d, 0x62, 0x6f, 0x61, 0x72, 0x64]
                &&& request_of(p)->Some_0 is QueryLedState ==> !internal_of(q) && typ_of(q) == 6
                    && payload_of(q) == seq![vars.led_state]
                &&& request_of(p)->Some_0 is SetLitTime ==> !internal_of(q) && typ_of(q) == 8
            },
{
    let req = request_of(p)->Some_0;
    let after = vars_after(vars, req);
    let id = msg_id_of(p);
    let q = match req {
        EUiRequest::HeartBeat(v) => packet_bytes(u8_code(), true, id, seq![v]),
        EUiRequest::BoardId => packet_bytes(u16_code(), true, id, le_bytes(ids::BOARD_ID)),
        EUiRequest::BoardName => packet_bytes(char_code(), false, id, ids::my_board_id()),
        EUiRequest::QueryLedState => packet_bytes(u8_code(), false, id, seq![after.led_state]),
        EUiRequest::SetLitTime(v) => packet_bytes(u16_code(), false, id, le_bytes(after.glow_time)),
        _ => Seq::empty(),
    };
    match req {
        EUiRequest::HeartBeat(v) => {
            lemma_built_packet_reads_back(u8_code(), true, id, seq![v]);
            assert(payload_of(p).len() == data_length_of(p));
            assert(payload_of(p).take(1) =~= seq![v]);
        },
        EUiRequest::BoardId => {
            lemma_built_packet_reads_back(u16_code(), true, id, le_bytes(ids::BOARD_ID));
            assert(le_bytes(ids::BOARD_ID) =~= seq![0xEFu8, 0xBEu8]);
        },
        EUiRequest::BoardName => {
            lemma_built_packet_reads_back(char_code(), false, id, ids::my_board_id());
        },
        EUiRequest::QueryLedState => {
            lemma_built_packet_reads_back(u8_code(), false, id, seq![after.led_state]);
        },
        EUiRequest::SetLitTime(v) => {
            lemma_built_packet_reads_back(u16_code(), false, id, le_bytes(after.glow_time));
            let data = payload_of(p);
            assert(data.len() == data_length_of(p));
            assert(v == le_u16(data[0], data[1]) as u16);
            assert(le_bytes(v) =~= data);
        },
        _ => {},
    }
    assert(reply_frames(req, after) == seq![cobs_encode(q)]);
}

/// What each request writes: only a lit time write changes a variable, and it
/// sets the lit time to the value written; the blink switch and the LED state
/// are never written by a request.
pub proof fn lemma_requests_write_only_lit_time(vars: TrackedVars, req: EUiRequest)
    ensures
        vars_after(vars, req).blink_enable == vars.blink_enable,
        vars_after(vars, req).led_state == vars.led_state,
        vars_after(vars, req).glow_time == (match req {
            EUiRequest::SetLitTime(v) => v,
            _ => vars.glow_time,
        }),
{
}

/// The answer to each query carries the variable it reads: a LED state query
/// the LED state, a variables request the blink switch, LED state, lit time
/// and board name in that order, a heartbeat its own value in an internal
/// packet, a lit time write the new lit time.
pub proof fn lemma_answers_carry_variables(vars: TrackedVars, value: u8, lit_time: u16)
    ensures
        reply_frames(EUiRequest::QueryLedState, vars_after(vars, EUiRequest::QueryLedState))
            == seq![cobs_encode(packet_bytes(6u8, false, seq![0x6cu8, 0x65, 0x64, 0x5f, 0x73, 0x74, 0x61, 0x74, 0x65], seq![vars.led_state]))],
        reply_frames(EUiRequest::SendVariables, vars_after(vars, EUiRequest::SendVariables))
            == seq![
            cobs_encode(packet_bytes(6u8, false, seq![0x6cu8, 0x65, 0x64, 0x5f, 0x62, 0x6c, 0x69, 0x6e, 0x6b], seq![vars.blink_enable])),
            cobs_encode(packet_bytes(6u8, false, seq![0x6cu8, 0x65, 0x64, 0x5f, 0x73, 0x74, 0x61, 0x74, 0x65], seq![vars.led_state])),
            cobs_encode(
                packet_bytes(
                    8u8,
                    false,
                    seq![0x6cu8, 0x69, 0x74, 0x5f, 0x74, 0x69, 0x6d, 0x65],
                    seq![(vars.glow_time % 256) as u8, (vars.glow_time / 256) as u8],
                ),
            ),
            cobs_encode(packet_bytes(4u8, false, seq![0x6du8, 0x79, 0x2d, 0x62, 0x6f, 0x61, 0x72, 0x64], seq![0x6du8, 0x79, 0x2d, 0x62, 0x6f, 0x61, 0x72, 0x64])),
        ],
        reply_frames(EUiRequest::HeartBeat(value), vars_after(vars, EUiRequest::HeartBeat(value)))
            == seq![cobs_encode(packet_bytes(6u8, true, seq![0x68u8], seq![value]))],
        reply_frames(EUiRequest::SetLitTime(lit_time), vars_after(vars, EUiRequest::SetLitTime(lit_time)))
            == seq![
            cobs_encode(
                packet_bytes(8u8, false, seq![0x6cu8, 0x69, 0x74, 0x5f, 0x74, 0x69, 0x6d, 0x65], seq![(lit_time % 256) as u8, (lit_time / 256) as u8]),
            ),
        ],
        reply_frames(EUiRequest::BoardId, vars_after(vars, EUiRequest::BoardId))
            == seq![cobs_encode(packet_bytes(8u8, true, seq![0x69u8], seq![0xEFu8, 0xBEu8]))],
        reply_frames(EUiRequest::BoardName, vars_after(vars, EUiRequest::BoardName))
            == seq![cobs_encode(packet_bytes(4u8, false, seq![0x6eu8, 0x61, 0x6d, 0x65], seq![0x6du8, 0x79, 0x2d, 0x62, 0x6f, 0x61, 0x72, 0x64]))],
{
    lemma_reply_frames_carry_values(value, vars.led_state, lit_time);
    lemma_tracked_vars_carry_values(vars.blink_enable, vars.led_state, vars.glow_time);
}

} // verus!
