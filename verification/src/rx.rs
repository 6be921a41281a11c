//! Received bytes: decoding them into packets with the ElectricUI stream
//! decoder and reading what each packet asks.
use electricui_embedded::decoder::Error as DecodeError;
use vstd::prelude::*;

use crate::error::BoardError;
use crate::request::{
    dispatch_eui_packet, heartbeat_without_value, request_of, unreadable_msg_id, EUiRequest,
};
use crate::rx_decoder::{outcome_ok, outcome_view, DecodeOutcome, RxDecoder};
use crate::wire::{
    accepted_packet, msg_id_error, packet_data_length, packet_internal, packet_msg_id,
    packet_response,
};

verus! {

/// The outcomes that report something (a packet or an error), in order.
pub open spec fn reported(outs: Seq<DecodeOutcome>) -> Seq<DecodeOutcome>
    decreases outs.len(),
{
    if outs.len() == 0 {
        Seq::empty()
    } else if outs.last() == Ok::<Option<Seq<u8>>, DecodeError>(None) {
        reported(outs.drop_last())
    } else {
        reported(outs.drop_last()).push(outs.last())
    }
}

/// What happened to the received bytes.
#[derive(Debug)]
pub enum RxEvent {
    /// A packet came in; this is what it asks, or why it could not be read.
    Packet { packet: Vec<u8>, outcome: Result<Option<EUiRequest>, BoardError> },
    /// The decoder refused a frame.
    DecodeFailed(BoardError),
}

/// The outcome of reading a received packet: a heartbeat without a value is
/// refused, a packet with an unreadable id fails with the error of the id
/// read, any
/// other packet gives its request (or none).
pub open spec fn packet_outcome(p: Seq<u8>, outcome: Result<Option<EUiRequest>, BoardError>) -> bool {
    if heartbeat_without_value(p) {
        outcome is Err && outcome->Err_0 is MissingHeartbeatValue
    } else if unreadable_msg_id(p) {
        outcome == Err::<Option<EUiRequest>, BoardError>(BoardError::Packet(msg_id_error(p)))
    } else {
        outcome == Ok::<Option<EUiRequest>, BoardError>(request_of(p))
    }
}

/// An event reports a decoder outcome: the packet with what it asks, or the
/// decoder's error.
pub open spec fn event_reports(e: RxEvent, o: DecodeOutcome) -> bool {
    match o {
        Ok(None) => false,
        Ok(Some(p)) => e matches RxEvent::Packet { packet, outcome } && packet@ == p
            && packet_outcome(p, outcome),
        Err(err) => e == RxEvent::DecodeFailed(BoardError::Decoder(err)),
    }
}

/// The events report, one each and in order, the outcomes that report
/// something.
pub open spec fn reports_all(events: Seq<RxEvent>, outs: Seq<DecodeOutcome>) -> bool {
    &&& events.len() == reported(outs).len()
    &&& forall|i: int| 0 <= i < events.len() ==> event_reports(#[trigger] events[i], reported(outs)[i])
}

/// Whether an accepted packet is a heartbeat without a value.
fn lacks_heartbeat_value(pkt: &[u8]) -> (r: bool)
    requires
        accepted_packet(pkt@),
    ensures
        r == heartbeat_without_value(pkt@),
{
    match packet_msg_id(pkt) {
        Ok(id) => {
            crate::request::same_bytes(id.as_slice(), crate::ids::heartbeat()) && packet_internal(pkt)
                && packet_response(pkt) && packet_data_length(pkt) == 0
        },
        Err(_) => false,
    }
}

/// What one decoder outcome reports: nothing while a packet is under way,
/// the decoder's error, or the decoded packet with what it asks (a heartbeat
/// without a value is refused with `MissingHeartbeatValue`).
pub fn rx_event_of(decoded: Result<Option<Vec<u8>>, DecodeError>) -> (r: Option<RxEvent>)
    requires
        (decoded is Ok && decoded->Ok_0 is Some) ==> accepted_packet(decoded->Ok_0->Some_0@),
    ensures
        r is None <==> outcome_view(decoded) == Ok::<Option<Seq<u8>>, DecodeError>(None),
        r is Some ==> event_reports(r->Some_0, outcome_view(decoded)),
{
    match decoded {
        Ok(Some(pkt)) => {
            let outcome = if lacks_heartbeat_value(pkt.as_slice()) {
                Err(BoardError::MissingHeartbeatValue)
            } else {
                dispatch_eui_packet(pkt.as_slice())
            };
            Some(RxEvent::Packet { packet: pkt, outcome })
        },
        Err(e) => Some(RxEvent::DecodeFailed(BoardError::Decoder(e))),
        Ok(None) => None,
    }
}

/// Feeds every received byte, once and in order, to the decoder, and reports
/// each packet it completes (with what the packet asks) and each error it
/// gives, in order; an error stops nothing.
pub fn poll_uart_queue<'buf, const N: usize>(dec: &mut RxDecoder<'buf, N>, bytes: &[u8]) -> (events: Vec<RxEvent>)
    ensures
        final(dec).fed() == old(dec).fed() + bytes@,
        final(dec).outcomes().len() == old(dec).outcomes().len() + bytes@.len(),
        final(dec).outcomes().take(old(dec).outcomes().len() as int) == old(dec).outcomes(),
        forall|i: int|
            0 <= i < bytes@.len() ==> outcome_ok(
                bytes@[i],
                #[trigger] final(dec).outcomes()[old(dec).outcomes().len() + i],
            ),
        reports_all(events@, final(dec).outcomes().skip(old(dec).outcomes().len() as int)),
{
    let ghost start_fed = dec.fed();
    let ghost start_outs = dec.outcomes();
    let ghost base = start_outs.len() as int;
    let mut events: Vec<RxEvent> = Vec::new();
    let mut idx: usize = 0;
    assert(dec.outcomes().skip(base) =~= Seq::<DecodeOutcome>::empty());
    while idx < bytes.len()
        invariant
            0 <= idx <= bytes@.len(),
            base == start_outs.len(),
            dec.fed() == start_fed + bytes@.take(idx as int),
            dec.outcomes().len() == base + idx,
            dec.outcomes().take(base) == start_outs,
            forall|i: int|
                0 <= i < idx ==> outcome_ok(bytes@[i], #[trigger] dec.outcomes()[base + i]),
            reports_all(events@, dec.outcomes().skip(base)),
        decreases bytes@.len() - idx,
    {
        let ghost before = dec.outcomes();
        let ghost before_events = events@;
        let decoded = dec.decode(bytes[idx]);
        let ghost o = outcome_view(decoded);
        assert(dec.outcomes().skip(base) =~= before.skip(base).push(o));
        assert(dec.outcomes().skip(base).drop_last() =~= before.skip(base));
        assert(dec.outcomes().take(base) =~= before.take(base));
        assert(bytes@.take(idx + 1) =~= bytes@.take(idx as int).push(bytes@[idx as int]));
        match rx_event_of(decoded) {
            Some(event) => {
                events.push(event);
            },
            None => {},
        }
        assert forall|i: int| 0 <= i < events@.len() implies event_reports(
            #[trigger] events@[i],
            reported(dec.outcomes().skip(base))[i],
        ) by {
            if i < before_events.len() {
                assert(events@[i] == before_events[i]);
            }
        }
        idx = idx + 1;
    }
    assert(bytes@.take(bytes@.len() as int) =~= bytes@);
    events
}

} // verus!
