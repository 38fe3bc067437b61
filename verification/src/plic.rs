//! The platform-level interrupt controller: per-hart register addressing
//! and the initialization writes that route the UART interrupt.
//!
//! The controller is plain MMIO; the embedding performs the volatile
//! reads and writes, including the claim/complete cycle from trap
//! context. What is decided here: which context a hart owns, which
//! address each of its registers has, and exactly which words per-hart
//! initialization writes where.

use vstd::prelude::*;

use crate::soc;

verus! {

/// One MMIO word write the embedding must perform: the value at the
/// address.
#[derive(Clone, Copy, PartialEq, Eq, Structural, Debug)]
pub struct MmioWrite {
    pub addr: usize,
    pub value: u32,
}

/// The controller context of a hart running in machine mode: contexts
/// alternate machine/supervisor per hart.
pub open spec fn context_of(hart_id: usize) -> int {
    hart_id * 2
}

/// The priority register of an interrupt source: one word each from the
/// priority base, independent of hart.
pub fn priority_ptr(irq: u32) -> (addr: usize)
    requires
        irq < 1024,
    ensures
        addr == soc::PLIC_PRIORITY_BASE + irq * 4,
{
    soc::PLIC_PRIORITY_BASE + (irq as usize) * 4
}

/// The claim/complete register of a hart's context: contexts sit 0x1000
/// apart.
pub fn claim_complete_ptr(hart_id: usize) -> (addr: usize)
    requires
        hart_id < 64,
    ensures
        addr == soc::PLIC_CLAIM_BASE + context_of(hart_id) * 0x1000,
{
    soc::PLIC_CLAIM_BASE + (hart_id * 2) * 0x1000
}

/// The priority-threshold register of a hart's context: contexts sit
/// 0x1000 apart.
pub fn threshold_ptr(hart_id: usize) -> (addr: usize)
    requires
        hart_id < 64,
    ensures
        addr == soc::PLIC_THRESHOLD_BASE + context_of(hart_id) * 0x1000,
{
    soc::PLIC_THRESHOLD_BASE + (hart_id * 2) * 0x1000
}

/// The enable-bitmask word holding an interrupt source's bit for a
/// hart's context: contexts sit 0x80 apart, and each word covers 32
/// sources.
pub fn enable_ptr(hart_id: usize, irq: u32) -> (addr: usize)
    requires
        hart_id < 64,
        irq < 1024,
    ensures
        addr == soc::PLIC_ENABLE_BASE + context_of(hart_id) * 0x80 + (irq / 32) * 4,
{
    soc::PLIC_ENABLE_BASE + (hart_id * 2) * 0x80 + ((irq / 32) as usize) * 4
}

/// The per-hart initialization of the controller, as the exact writes to
/// perform, in order: the UART source gets priority 1 (any nonzero
/// priority passes a zero threshold), the hart's threshold opens at 0,
/// and the UART's bit joins the hart's enable mask. `enable_current` is
/// the enable word's value as read back, since the bit is or-ed in.
pub fn init(hart_id: usize, enable_current: u32) -> (writes: Vec<MmioWrite>)
    requires
        hart_id < 64,
    ensures
        writes@.len() == 3,
        writes@[0] == (MmioWrite {
            addr: (soc::PLIC_PRIORITY_BASE + soc::UART_IRQ * 4) as usize,
            value: 1,
        }),
        writes@[1] == (MmioWrite {
            addr: (soc::PLIC_THRESHOLD_BASE + context_of(hart_id) * 0x1000) as usize,
            value: 0,
        }),
        writes@[2] == (MmioWrite {
            addr: (soc::PLIC_ENABLE_BASE + context_of(hart_id) * 0x80 + (soc::UART_IRQ / 32)
                * 4) as usize,
            value: enable_current | (1u32 << (soc::UART_IRQ % 32)),
        }),
{
    let mut writes: Vec<MmioWrite> = Vec::new();
    writes.push(MmioWrite { addr: priority_ptr(soc::UART_IRQ), value: 1 });
    writes.push(MmioWrite { addr: threshold_ptr(hart_id), value: 0 });
    writes.push(
        MmioWrite {
            addr: enable_ptr(hart_id, soc::UART_IRQ),
            value: enable_current | (1u32 << (soc::UART_IRQ % 32)),
        },
    );
    writes
}

} // verus!
