//! The firmware gateway: one marshalled call per firmware function used.
//!
//! The platform firmware is reached through a single trap with a fixed
//! argument convention: an extension selector, a function selector and up to
//! three word-sized arguments, answered by an (error, value) pair. The trap
//! itself is a machine instruction that only the embedding can issue; this
//! module computes the exact words to hand to it, and says what they are.

use vstd::prelude::*;

verus! {

/// Hart state management extension selector.
pub const EID_HSM: usize = 0x48534D;
/// Timer extension selector.
pub const EID_TIME: usize = 0x54494D45;
/// Supervisor-level inter-processor-interrupt extension selector.
pub const EID_SPI: usize = 0x735049;
/// Legacy console byte-output extension selector.
pub const EID_CONSOLE_PUTCHAR: usize = 0x01;
/// Legacy console byte-input extension selector.
pub const EID_CONSOLE_GETCHAR: usize = 0x02;

/// One firmware call, fully marshalled: the embedding traps with exactly
/// these selector and argument words.
#[derive(Clone, Copy, PartialEq, Eq, Structural, Debug)]
pub struct SbiCall {
    pub extension: usize,
    pub function: usize,
    pub arg0: usize,
    pub arg1: usize,
    pub arg2: usize,
}

/// The call that asks firmware to start a stopped hart.
pub open spec fn hart_start_call(hart_id: usize, start_addr: usize, opaque: usize) -> SbiCall {
    SbiCall { extension: EID_HSM, function: 0, arg0: hart_id, arg1: start_addr, arg2: opaque }
}

/// The call that suspends the calling hart until its next interrupt.
pub open spec fn hart_suspend_call() -> SbiCall {
    SbiCall { extension: EID_HSM, function: 3, arg0: 0, arg1: 0, arg2: 0 }
}

/// The call that arms the firmware timer for an absolute deadline.
pub open spec fn set_timer_call(time: u64) -> SbiCall {
    SbiCall { extension: EID_TIME, function: 0, arg0: time as usize, arg1: 0, arg2: 0 }
}

/// The call that sends a software interrupt to every hart in the mask.
pub open spec fn send_ipi_call(hart_mask: usize) -> SbiCall {
    SbiCall { extension: EID_SPI, function: 0, arg0: hart_mask, arg1: 0, arg2: 0 }
}

/// The call that writes one byte to the firmware console.
pub open spec fn console_putchar_call(c: usize) -> SbiCall {
    SbiCall { extension: EID_CONSOLE_PUTCHAR, function: 0, arg0: c, arg1: 0, arg2: 0 }
}

/// The call that reads one byte from the firmware console.
pub open spec fn console_getchar_call() -> SbiCall {
    SbiCall { extension: EID_CONSOLE_GETCHAR, function: 0, arg0: 0, arg1: 0, arg2: 0 }
}

/// Marshal a hart-start request: `hart_id` receives control at `start_addr`
/// with `opaque` in its second argument register.
pub fn hart_start(hart_id: usize, start_addr: usize, opaque: usize) -> (c: SbiCall)
    ensures
        c == hart_start_call(hart_id, start_addr, opaque),
{
    SbiCall { extension: EID_HSM, function: 0, arg0: hart_id, arg1: start_addr, arg2: opaque }
}

/// Marshal a default-mode suspend of the calling hart.
pub fn hart_suspend() -> (c: SbiCall)
    ensures
        c == hart_suspend_call(),
{
    SbiCall { extension: EID_HSM, function: 3, arg0: 0, arg1: 0, arg2: 0 }
}

/// Marshal a timer arm for the absolute deadline `time`.
pub fn set_timer(time: u64) -> (c: SbiCall)
    ensures
        c == set_timer_call(time),
{
    SbiCall { extension: EID_TIME, function: 0, arg0: time as usize, arg1: 0, arg2: 0 }
}

/// Marshal a software-interrupt send to the harts in `hart_mask`.
pub fn send_ipi(hart_mask: usize) -> (c: SbiCall)
    ensures
        c == send_ipi_call(hart_mask),
{
    SbiCall { extension: EID_SPI, function: 0, arg0: hart_mask, arg1: 0, arg2: 0 }
}

/// Marshal a console write of the byte `c`.
pub fn console_putchar(c: usize) -> (r: SbiCall)
    ensures
        r == console_putchar_call(c),
{
    SbiCall { extension: EID_CONSOLE_PUTCHAR, function: 0, arg0: c, arg1: 0, arg2: 0 }
}

/// Marshal a console read of one byte.
pub fn console_getchar() -> (r: SbiCall)
    ensures
        r == console_getchar_call(),
{
    SbiCall { extension: EID_CONSOLE_GETCHAR, function: 0, arg0: 0, arg1: 0, arg2: 0 }
}

/// Whether the (error, value) pair that firmware answered reports success:
/// the error word is zero.
pub fn call_succeeded(error: usize) -> (r: bool)
    ensures
        r == (error == 0),
{
    error == 0
}

} // verus!
