//! What a received packet asks of the board.
use vstd::prelude::*;

use crate::endian::read_u16_le;
use crate::error::BoardError;
use crate::ids;
use crate::wire::{
    body_in_bounds, data_length_of, id_length_of, internal_of, le_u16, msg_id_error, msg_id_of,
    packet_data_length, packet_internal, packet_msg_id, packet_payload, packet_response,
    payload_of, response_of, valid_msg_id,
};

verus! {

/// A request that the host made of the board.
#[derive(Clone, Copy, Debug, PartialEq, Eq, Structural)]
pub enum EUiRequest {
    /// Heartbeat, to be echoed with its value.
    HeartBeat(u8),
    /// Query of the board id.
    BoardId,
    /// Query of the board name.
    BoardName,
    /// Request to announce the writable ids.
    AnnounceIds,
    /// Request to send every writable variable.
    SendVariables,
    /// Query of the LED state.
    QueryLedState,
    /// New time, in milliseconds, that the LED stays in one state.
    SetLitTime(u16),
}

/// The request that a packet with a readable message id makes, if any:
/// each id is answered only with the flags and lengths that the protocol
/// gives it, every other packet is ignored.
pub open spec fn request_of(p: Seq<u8>) -> Option<EUiRequest> {
    let id = msg_id_of(p);
    let internal = internal_of(p);
    let response = response_of(p);
    if id == ids::heartbeat_id() && internal && response {
        Some(EUiRequest::HeartBeat(payload_of(p)[0]))
    } else if id == ids::board_id_id() && internal && response {
        Some(EUiRequest::BoardId)
    } else if id == ids::board_name_id() && !internal && response {
        Some(EUiRequest::BoardName)
    } else if id == ids::announce_ids_id() && internal {
        Some(EUiRequest::AnnounceIds)
    } else if id == ids::send_variables_id() && internal {
        Some(EUiRequest::SendVariables)
    } else if id == ids::led_state_id() && !internal && response {
        Some(EUiRequest::QueryLedState)
    } else if id == ids::lit_time_id() && !internal && response && data_length_of(p) == 2 {
        Some(EUiRequest::SetLitTime(le_u16(payload_of(p)[0], payload_of(p)[1]) as u16))
    } else {
        None
    }
}

/// The message id of the packet cannot be read: its length is zero, or it is
/// the single byte zero.
pub open spec fn unreadable_msg_id(p: Seq<u8>) -> bool {
    id_length_of(p) == 0 || !valid_msg_id(msg_id_of(p))
}

/// A heartbeat request whose payload holds no value to echo.
pub open spec fn heartbeat_without_value(p: Seq<u8>) -> bool {
    &&& !unreadable_msg_id(p)
    &&& msg_id_of(p) == ids::heartbeat_id()
    &&& internal_of(p)
    &&& response_of(p)
    &&& data_length_of(p) == 0
}

/// Whether two byte strings are equal.
pub fn same_bytes(a: &[u8], b: &[u8]) -> (r: bool)
    ensures
        r == (a@ == b@),
{
    if a.len() != b.len() {
        return false;
    }
    let mut i: usize = 0;
    while i < a.len()
        invariant
            a@.len() == b@.len(),
            0 <= i <= a@.len(),
            forall|j: int| 0 <= j < i ==> a@[j] == b@[j],
        decreases a@.len() - i,
    {
        if a[i] != b[i] {
            assert(a@[i as int] != b@[i as int]);
            return false;
        }
        i = i + 1;
    }
    assert(a@ =~= b@);
    true
}

/// Reads what a received packet asks of the board: `Ok(Some(request))`, or
/// `Ok(None)` for a packet that the board ignores; fails when the message id
/// cannot be read.
pub fn dispatch_eui_packet(pkt: &[u8]) -> (r: Result<Option<EUiRequest>, BoardError>)
    requires
        body_in_bounds(pkt@),
        !heartbeat_without_value(pkt@),
    ensures
        r is Err <==> unreadable_msg_id(pkt@),
        r is Err ==> r->Err_0 == BoardError::Packet(msg_id_error(pkt@)),
        r is Ok ==> r->Ok_0 == request_of(pkt@),
{
    let msg_id = match packet_msg_id(pkt) {
        Ok(id) => id,
        Err(e) => {
            return Err(BoardError::Packet(e));
        },
    };
    let is_internal = packet_internal(pkt);
    let resp = packet_response(pkt);
    let id = msg_id.as_slice();
    let ghost p = pkt@;
    if same_bytes(id, ids::heartbeat()) && is_internal && resp {
        let payload = match packet_payload(pkt) {
            Ok(data) => data,
            Err(e) => {
                return Err(BoardError::Packet(e));
            },
        };
        assert(payload@.len() == data_length_of(p));
        Ok(Some(EUiRequest::HeartBeat(payload[0])))
    } else if same_bytes(id, ids::board_id()) && is_internal && resp {
        Ok(Some(EUiRequest::BoardId))
    } else if same_bytes(id, ids::board_name()) && !is_internal && resp {
        Ok(Some(EUiRequest::BoardName))
    } else if same_bytes(id, ids::announce_ids()) && is_internal {
        Ok(Some(EUiRequest::AnnounceIds))
    } else if same_bytes(id, ids::send_variables()) && is_internal {
        Ok(Some(EUiRequest::SendVariables))
    } else if same_bytes(id, ids::led_state().as_slice()) && !is_internal && resp {
        Ok(Some(EUiRequest::QueryLedState))
    } else if same_bytes(id, ids::lit_time().as_slice()) && !is_internal && resp
        && packet_data_length(pkt) == 2 {
        let payload = match packet_payload(pkt) {
            Ok(data) => data,
            Err(e) => {
                return Err(BoardError::Packet(e));
            },
        };
        let value = read_u16_le(payload.as_slice());
        Ok(Some(EUiRequest::SetLitTime(value)))
    } else {
        Ok(None)
    }
}

/// Which flags each message id needs, for a packet whose id can be read: the
/// heartbeat "h" and the board id query "i" need the internal and response
/// flags; the board name query "name" and the LED state query "led_state"
/// need the response flag without the internal one; "t" (announce ids) and
/// "w" (send variables) need only the internal flag, whatever the response
/// flag; "lit_time" needs the response flag, no internal flag and a two byte
/// payload, whose little endian value it sets. Every other id is ignored.
pub proof fn lemma_request_flags(p: Seq<u8>)
    requires
        !unreadable_msg_id(p),
    ensures
        msg_id_of(p) == seq![0x68u8] ==> request_of(p) == (if internal_of(p) && response_of(p) {
            Some(EUiRequest::HeartBeat(payload_of(p)[0]))
        } else {
            None
        }),
        msg_id_of(p) == seq![0x69u8] ==> request_of(p) == (if internal_of(p) && response_of(p) {
            Some(EUiRequest::BoardId)
        } else {
            None
        }),
        msg_id_of(p) == seq![0x6eu8, 0x61, 0x6d, 0x65] ==> request_of(p) == (if !internal_of(p) && response_of(p) {
            Some(EUiRequest::BoardName)
        } else {
            None
        }),
        msg_id_of(p) == seq![0x74u8] ==> request_of(p) == (if internal_of(p) {
            Some(EUiRequest::AnnounceIds)
        } else {
            None
        }),
        msg_id_of(p) == seq![0x77u8] ==> request_of(p) == (if internal_of(p) {
            Some(EUiRequest::SendVariables)
        } else {
            None
        }),
        msg_id_of(p) == seq![0x6cu8, 0x65, 0x64, 0x5f, 0x73, 0x74, 0x61, 0x74, 0x65] ==> request_of(p) == (if !internal_of(p) && response_of(p) {
            Some(EUiRequest::QueryLedState)
        } else {
            None
        }),
        msg_id_of(p) == seq![0x6cu8, 0x69, 0x74, 0x5f, 0x74, 0x69, 0x6d, 0x65] ==> request_of(p) == (if !internal_of(p) && response_of(p)
            && data_length_of(p) == 2 {
            Some(EUiRequest::SetLitTime((payload_of(p)[0] + 256 * payload_of(p)[1]) as u16))
        } else {
            None
        }),
        msg_id_of(p) != seq![0x68u8] && msg_id_of(p) != seq![0x69u8] && msg_id_of(p) != seq![0x6eu8, 0x61, 0x6d, 0x65] && msg_id_of(p)
            != seq![0x74u8] && msg_id_of(p) != seq![0x77u8] && msg_id_of(p) != seq![0x6cu8, 0x65, 0x64, 0x5f, 0x73, 0x74, 0x61, 0x74, 0x65] && msg_id_of(p) != seq![0x6cu8, 0x69, 0x74, 0x5f, 0x74, 0x69, 0x6d, 0x65]
            ==> request_of(p) is None,
{
    assert(ids::heartbeat_id() =~= seq![0x68u8]);
    assert(ids::board_id_id() =~= seq![0x69u8]);
    assert(ids::board_name_id() =~= seq![0x6eu8, 0x61, 0x6d, 0x65]);
    assert(ids::announce_ids_id() =~= seq![0x74u8]);
    assert(ids::send_variables_id() =~= seq![0x77u8]);
    assert(ids::led_state_id() =~= seq![0x6cu8, 0x65, 0x64, 0x5f, 0x73, 0x74, 0x61, 0x74, 0x65]);
    assert(ids::lit_time_id() =~= seq![0x6cu8, 0x69, 0x74, 0x5f, 0x74, 0x69, 0x6d, 0x65]);
}

/// The response flag does not decide "w" and "t": flipping it on an internal
/// packet with either id leaves the request as it is, and a dispatch of such
/// a packet yields the request whatever the flag.
pub proof fn lemma_response_flag_free(p: Seq<u8>, q: Seq<u8>)
    requires
        !unreadable_msg_id(p),
        !unreadable_msg_id(q),
        msg_id_of(p) == msg_id_of(q),
        msg_id_of(p) == seq![0x77u8] || msg_id_of(p) == seq![0x74u8],
        internal_of(p),
        internal_of(q),
        response_of(p) != response_of(q),
    ensures
        request_of(p) == request_of(q),
        request_of(p) is Some,
{
    lemma_request_flags(p);
    lemma_request_flags(q);
}

} // verus!
