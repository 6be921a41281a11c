//! Decisions of the serial DMA glue: how many bytes an idle line delivered,
//! and the states of the transmit transfer.
use vstd::prelude::*;

verus! {

/// Bytes of one receive DMA transfer.
pub const DMA_RX_XFER_SIZE: usize = 32;

/// Receive DMA transfers that the receive queue holds.
pub const DMA_RX_Q_LEN: usize = 8;

/// Bytes of the receive queue.
pub const DMA_RX_Q_SIZE: usize = 256;

/// Frames that the transmit queue holds.
pub const DMA_TX_Q_LEN: usize = 4;

/// Bytes received by a transfer that the idle line stopped early, given the
/// transfers that the DMA stream had still to do.
pub fn idle_received_len(remaining: u16) -> (r: usize)
    requires
        remaining <= DMA_RX_XFER_SIZE,
    ensures
        r == DMA_RX_XFER_SIZE - remaining,
{
    DMA_RX_XFER_SIZE - remaining as usize
}

/// The transmit DMA: not there, idle with its stream and serial port, or
/// sending a transfer.
pub enum TxTransfer<S, T, X> {
    Empty,
    Uninitialized(S, T),
    Initialized(X),
}

impl<S, T, X> TxTransfer<S, T, X> {
    /// Whether a transfer is under way.
    pub fn is_initialized(&self) -> (r: bool)
        ensures
            r == (*self is Initialized),
    {
        match self {
            TxTransfer::Initialized(_) => true,
            _ => false,
        }
    }

    /// Whether the stream and serial port wait for a transfer.
    pub fn is_uninitialized(&self) -> (r: bool)
        ensures
            r == (*self is Uninitialized),
    {
        match self {
            TxTransfer::Uninitialized(_, _) => true,
            _ => false,
        }
    }
}

/// Start of a transmission: with a frame to send and the DMA idle, hands the
/// stream and serial port to `start`, which starts a transfer of the frame,
/// and keeps that transfer; otherwise changes nothing (and `start`, with the
/// frame it holds, is dropped). Returns whether a transfer started.
pub fn start_dma_tx<S, T, X, F: FnOnce(S, T) -> X>(txfer: &mut TxTransfer<S, T, X>, has_frame: bool, start: F) -> (started: bool)
    requires
        forall|stream: S, serial_tx: T| start.requires((stream, serial_tx)),
    ensures
        started == (has_frame && *old(txfer) is Uninitialized),
        started ==> {
            &&& *final(txfer) is Initialized
            &&& start.ensures(
                (old(txfer)->Uninitialized_0, old(txfer)->Uninitialized_1),
                final(txfer)->Initialized_0,
            )
        },
        !started ==> *final(txfer) == *old(txfer),
        !(*old(txfer) is Empty) ==> !(*final(txfer) is Empty),
{
    if !has_frame || !txfer.is_uninitialized() {
        return false;
    }
    let mut taken = TxTransfer::Empty;
    core::mem::swap(txfer, &mut taken);
    match taken {
        TxTransfer::Uninitialized(stream, serial_tx) => {
            *txfer = TxTransfer::Initialized(start(stream, serial_tx));
            true
        },
        other => {
            *txfer = other;
            false
        },
    }
}

/// End of a transmission: when a transfer is under way and the stream flags
/// it complete, hands the transfer to `release`, which gives back the stream
/// and serial port, and keeps them idle for the next transfer; otherwise
/// changes nothing. Returns whether the transfer was released (the next
/// transmission may then start).
pub fn on_dma_tx_complete<S, T, X, F: FnOnce(X) -> (S, T)>(txfer: &mut TxTransfer<S, T, X>, complete: bool, release: F) -> (released: bool)
    requires
        forall|transfer: X| release.requires((transfer,)),
    ensures
        released == (complete && *old(txfer) is Initialized),
        released ==> {
            &&& *final(txfer) is Uninitialized
            &&& release.ensures(
                (old(txfer)->Initialized_0,),
                (final(txfer)->Uninitialized_0, final(txfer)->Uninitialized_1),
            )
        },
        !released ==> *final(txfer) == *old(txfer),
        !(*old(txfer) is Empty) ==> !(*final(txfer) is Empty),
{
    if !txfer.is_initialized() || !complete {
        return false;
    }
    let mut taken = TxTransfer::Empty;
    core::mem::swap(txfer, &mut taken);
    match taken {
        TxTransfer::Initialized(tx) => {
            let (stream, serial_tx) = release(tx);
            *txfer = TxTransfer::Uninitialized(stream, serial_tx);
            true
        },
        other => {
            *txfer = other;
            false
        },
    }
}

} // verus!
