//! The platform's memory map: where the interrupt controller, the
//! core-local interruptor and the UART sit, and the per-hart register
//! addresses computed from them. The volatile accesses themselves belong
//! to the embedding; every address it needs is computed and pinned here.

use vstd::prelude::*;

verus! {

/// Base address of the platform-level interrupt controller.
pub const PLIC_BASE: usize = 0x0c00_0000;
/// Interrupt priority registers: one word per source, from the base.
pub const PLIC_PRIORITY_BASE: usize = PLIC_BASE;
/// Per-context interrupt-enable bitmask registers.
pub const PLIC_ENABLE_BASE: usize = PLIC_BASE + 0x2000;
/// Per-context priority-threshold registers.
pub const PLIC_THRESHOLD_BASE: usize = PLIC_BASE + 0x200000;
/// Per-context claim/complete registers.
pub const PLIC_CLAIM_BASE: usize = PLIC_BASE + 0x200004;

/// Base address of the core-local interruptor.
pub const CLINT_BASE: usize = 0x0200_0000;
/// The free-running real-time counter register.
pub const CLINT_MTIME: usize = CLINT_BASE + 0xBFF8;
/// First of the per-hart timer-compare registers.
pub const CLINT_MTIMECMP_BASE: usize = CLINT_BASE + 0x4000;

/// The timer-compare register of one hart: they sit eight bytes apart
/// from the base, in hart order.
pub fn mtimecmp(hart_id: usize) -> (addr: usize)
    requires
        hart_id < 4096,
    ensures
        addr == CLINT_MTIMECMP_BASE + hart_id * 8,
{
    CLINT_MTIMECMP_BASE + hart_id * 8
}

/// Interrupt source number of the UART.
pub const UART_IRQ: u32 = 10;

/// Base address of the 16550-compatible UART.
pub const UART_BASE: usize = 0x1000_0000;
/// Receiver buffer register (read).
pub const UART_RBR: usize = UART_BASE;
/// Transmit holding register (write).
pub const UART_THR: usize = UART_BASE;
/// Interrupt-enable register.
pub const UART_IER: usize = UART_BASE + 1;
/// FIFO control register (write only).
pub const UART_FCR: usize = UART_BASE + 2;
/// Line status register.
pub const UART_LSR: usize = UART_BASE + 5;

} // verus!
