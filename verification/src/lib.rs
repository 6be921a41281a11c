//! Protocol logic of a small ElectricUI board: decoding requests, building
//! replies, and the decisions of the blink loop and the serial DMA glue.

pub mod blink;
pub mod clock;
pub mod endian;
pub mod error;
pub mod framing;
pub mod handler;
pub mod ids;
pub mod packet;
pub mod reply;
pub mod request;
pub mod rx;
pub mod rx_decoder;
pub mod serial;
pub mod wire;

pub use error::BoardError;
