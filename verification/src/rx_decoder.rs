//! The ElectricUI stream decoder, with a record of every byte fed to it and
//! what it made of each. The record changes only through `RxDecoder::decode`,
//! which feeds the byte to the decoder.
use electricui_embedded::decoder::Decoder;
use electricui_embedded::decoder::Error as DecodeError;
use vstd::prelude::*;

use crate::wire::accepted_packet;

verus! {

/// `Decoder::decode` of one received byte: `Ok(Some(packet))` when the byte
/// completes a packet that `Packet::new` accepts, `Ok(None)` while a packet
/// is under way or after a zero byte (which ends a frame and resets the
/// decoder), an error for a frame that overflows the decoder's buffer or that
/// `Packet::new` refuses. Which of these comes depends on the bytes that came
/// before, which the decoder holds.
#[verifier::external_body]
pub(crate) fn decode_byte<'buf, const N: usize>(dec: &mut Decoder<'buf, N>, byte: u8) -> (r: Result<Option<Vec<u8>>, DecodeError>)
    ensures
        (r is Ok && r->Ok_0 is Some) ==> accepted_packet(r->Ok_0->Some_0@),
        byte == 0 ==> (r is Ok && r->Ok_0 is None),
{
    match dec.decode(byte) {
        Ok(Some(p)) => Ok(Some(p.as_ref().to_vec())),
        Ok(None) => Ok(None),
        Err(e) => Err(e),
    }
}

/// What the decoder made of one byte: `Ok(None)` while a packet is under
/// way, `Ok(Some(packet))` for a completed packet, or its error.
pub type DecodeOutcome = Result<Option<Seq<u8>>, DecodeError>;

/// The outcome of a `Decoder::decode` call, with the packet as bytes.
pub open spec fn outcome_view(r: Result<Option<Vec<u8>>, DecodeError>) -> DecodeOutcome {
    match r {
        Ok(Some(p)) => Ok(Some(p@)),
        Ok(None) => Ok(None),
        Err(e) => Err(e),
    }
}

/// What the decoder source guarantees of one outcome: a packet is one that
/// `Packet::new` accepts, and a zero byte yields nothing.
pub open spec fn outcome_ok(byte: u8, o: DecodeOutcome) -> bool {
    &&& (o matches Ok(Some(p)) ==> accepted_packet(p))
    &&& (byte == 0 ==> o == Ok::<Option<Seq<u8>>, DecodeError>(None))
}

/// A stream decoder together with the bytes fed to it and what it made of
/// each, in order.
pub struct RxDecoder<'buf, const N: usize> {
    dec: Decoder<'buf, N>,
    fed: Ghost<Seq<u8>>,
    outcomes: Ghost<Seq<DecodeOutcome>>,
}

impl<'buf, const N: usize> RxDecoder<'buf, N> {
    /// Every byte fed to the decoder so far, in order.
    pub closed spec fn fed(&self) -> Seq<u8> {
        self.fed@
    }

    /// What the decoder made of each byte fed to it, in order.
    pub closed spec fn outcomes(&self) -> Seq<DecodeOutcome> {
        self.outcomes@
    }

    /// Takes a decoder that has been fed nothing yet.
    pub fn new(dec: Decoder<'buf, N>) -> (r: Self)
        ensures
            r.fed() == Seq::<u8>::empty(),
            r.outcomes() == Seq::<DecodeOutcome>::empty(),
    {
        RxDecoder { dec, fed: Ghost(Seq::empty()), outcomes: Ghost(Seq::empty()) }
    }

    /// Feeds one byte to the decoder and records it with its outcome.
    pub fn decode(&mut self, byte: u8) -> (r: Result<Option<Vec<u8>>, DecodeError>)
        ensures
            final(self).fed() == old(self).fed().push(byte),
            final(self).outcomes() == old(self).outcomes().push(outcome_view(r)),
            outcome_ok(byte, outcome_view(r)),
    {
        let r = decode_byte(&mut self.dec, byte);
        self.fed = Ghost(self.fed@.push(byte));
        self.outcomes = Ghost(self.outcomes@.push(outcome_view(r)));
        r
    }
}

} // verus!
