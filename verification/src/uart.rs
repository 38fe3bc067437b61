//! The 16550-compatible UART: its initialization sequence and line-status
//! decoding.
//!
//! The volatile register accesses are the embedding's; this module pins
//! down which bytes initialization writes where, when a byte may be
//! pushed into the transmit register, and when one is waiting to be
//! read.

use vstd::prelude::*;

use crate::soc;

verus! {

/// One MMIO byte write the embedding must perform: the value at the
/// address.
#[derive(Clone, Copy, PartialEq, Eq, Structural, Debug)]
pub struct MmioWriteByte {
    pub addr: usize,
    pub value: u8,
}

/// Line-status bit reporting a received byte waiting in the buffer.
pub const LSR_RX_READY: u8 = 1;
/// Line-status bit reporting an idle transmit holding register.
pub const LSR_TX_IDLE: u8 = 1 << 5;

/// The UART initialization sequence, as the exact writes to perform, in
/// order: interrupts off while configuring, FIFOs enabled and both
/// directions cleared, then the receive interrupt alone enabled.
pub fn init() -> (writes: Vec<MmioWriteByte>)
    ensures
        writes@.len() == 3,
        writes@[0] == (MmioWriteByte { addr: soc::UART_IER, value: 0x00 }),
        writes@[1] == (MmioWriteByte { addr: soc::UART_FCR, value: 0x07 }),
        writes@[2] == (MmioWriteByte { addr: soc::UART_IER, value: 0x01 }),
{
    let mut writes: Vec<MmioWriteByte> = Vec::new();
    writes.push(MmioWriteByte { addr: soc::UART_IER, value: 0x00 });
    writes.push(MmioWriteByte { addr: soc::UART_FCR, value: 0x07 });
    writes.push(MmioWriteByte { addr: soc::UART_IER, value: 0x01 });
    writes
}

/// Whether a line-status value says a received byte is ready: its data
/// bit is set. Only then may the receiver buffer be read.
pub fn rx_ready(lsr: u8) -> (r: bool)
    ensures
        r == (lsr & LSR_RX_READY != 0),
{
    lsr & LSR_RX_READY != 0
}

/// Whether a line-status value says the transmitter is idle: its
/// holding-register-empty bit is set. A byte written earlier would be
/// overwritten, so the transmit path waits for this before writing.
pub fn tx_idle(lsr: u8) -> (r: bool)
    ensures
        r == (lsr & LSR_TX_IDLE != 0),
{
    lsr & LSR_TX_IDLE != 0
}

} // verus!
