use vstd::prelude::*;

verus! {

/// The packet error of the ElectricUI wire format.
#[verifier::external_type_specification]
#[verifier::external_body]
pub struct ExPacketError(electricui_embedded::wire::packet::Error);

/// The error of the ElectricUI stream decoder.
#[verifier::external_type_specification]
#[verifier::external_body]
pub struct ExDecoderError(electricui_embedded::decoder::Error);

/// The streaming packet decoder of the ElectricUI wire format.
#[verifier::external_type_specification]
#[verifier::external_body]
pub struct ExDecoder<'buf, const N: usize>(electricui_embedded::decoder::Decoder<'buf, N>);

/// Errors of the board's protocol handling.
#[derive(Debug)]
pub enum BoardError {
    /// A packet field could not be read or written.
    Packet(electricui_embedded::wire::packet::Error),
    /// The byte stream could not be decoded into a packet.
    Decoder(electricui_embedded::decoder::Error),
    /// A heartbeat request carried no value to echo.
    MissingHeartbeatValue,
}

} // verus!
