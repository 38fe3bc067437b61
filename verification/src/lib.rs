//! A multi-hart task subsystem for a RISC-V platform: trap dispatch,
//! per-hart round-robin scheduling, context switching, cross-hart task
//! spawning over firmware IPIs, and the interrupt-aware synchronization
//! primitives that keep those sound.
//!
//! Everything hardware does (the trap entry assembly, MMIO accesses, the
//! `ecall` into firmware) lives outside this library; the library holds the
//! decisions and the data: it computes the exact register values, firmware
//! call arguments and scheduling outcomes, and its contracts pin them down.

pub mod arch;
pub mod fdt;
pub mod interrupt;
pub mod plic;
pub mod sbi;
pub mod soc;
pub mod spin;
pub mod task;
pub mod timer;
pub mod uart;
