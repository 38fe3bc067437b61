//! Trap cause decoding and dispatch, and the hart-local interrupt-enable
//! state.
//!
//! All traps enter one assembly stub that saves caller-saved registers,
//! asks this module what to do with the (cause, epc) pair, writes the
//! answered program counter back to the exception-pc register and returns
//! from the trap. The stub is the embedding's; the decisions are here, and
//! the contracts give the answered program counter and the required
//! hardware actions exactly, cause by cause.

use vstd::prelude::*;

use crate::sbi::{set_timer_call, SbiCall};
use crate::task::context::RegisterFile;
use crate::task::scheduler::{schedule_rel, Scheduler};
use crate::timer;
use crate::timer::INTERVAL;

verus! {

/// Interrupt bit of the trap-cause word: set for interrupts, clear for
/// exceptions.
pub const CAUSE_INTERRUPT_FLAG: u64 = 1 << 63;

/// Cause code of a software (inter-processor) interrupt.
pub const SOFTWARE_INTERRUPT: u64 = 3;
/// Cause code of a timer interrupt.
pub const TIMER_INTERRUPT: u64 = 7;
/// Cause code of an external device interrupt.
pub const EXTERNAL_INTERRUPT: u64 = 11;

/// Exception code of an instruction access fault.
pub const INSTRUCTION_ACCESS_FAULT: u64 = 1;
/// Exception code of an illegal instruction.
pub const ILLEGAL_INSTRUCTION: u64 = 2;
/// Exception code of a load access fault.
pub const LOAD_ACCESS_FAULT: u64 = 5;
/// Exception code of a store access fault.
pub const STORE_ACCESS_FAULT: u64 = 7;
/// Exception code of an environment call from user mode.
pub const USER_ECALL: u64 = 8;
/// Exception code of an environment call from supervisor mode.
pub const SUPERVISOR_ECALL: u64 = 9;
/// Exception code of an environment call from machine mode.
pub const MACHINE_ECALL: u64 = 11;

/// Width of the environment-call instruction: a resumed task must continue
/// past the `ecall`, not re-execute it.
pub const ECALL_WIDTH: usize = 4;

/// The hart-local interrupt-enable bit, as a value. On hardware it lives
/// in a status register that only privileged instructions reach; every
/// function that promises something about interrupt state takes it
/// explicitly.
#[derive(Clone, Copy, PartialEq, Eq, Structural, Debug)]
pub struct IrqState {
    pub enabled: bool,
}

/// Enable local interrupts on this hart.
pub fn enable(irq: &mut IrqState)
    ensures
        final(irq).enabled,
{
    irq.enabled = true;
}

/// Disable local interrupts on this hart.
pub fn disable(irq: &mut IrqState)
    ensures
        !final(irq).enabled,
{
    irq.enabled = false;
}

/// Whether a trap-cause word reports an interrupt (true) or an exception
/// (false).
pub open spec fn cause_is_interrupt(cause: u64) -> bool {
    cause & CAUSE_INTERRUPT_FLAG != 0
}

/// The cause code: the trap-cause word with the interrupt bit masked out.
pub open spec fn cause_code(cause: u64) -> u64 {
    cause & !CAUSE_INTERRUPT_FLAG
}

/// Why a hart halted: a fault trap is a kernel bug, since no isolation
/// exists below the kernel.
#[derive(Clone, Copy, PartialEq, Eq, Structural, Debug)]
pub enum FaultCause {
    InstructionAccessFault,
    IllegalInstruction,
    LoadAccessFault,
    StoreAccessFault,
    Unknown { code: u64 },
}

/// A fatal trap: its cause and the program counter it struck at.
#[derive(Clone, Copy, PartialEq, Eq, Structural, Debug)]
pub struct Fault {
    pub cause: FaultCause,
    pub epc: usize,
}

/// The fault a given exception code reports.
pub open spec fn fault_cause_of(code: u64) -> FaultCause {
    if code == INSTRUCTION_ACCESS_FAULT {
        FaultCause::InstructionAccessFault
    } else if code == ILLEGAL_INSTRUCTION {
        FaultCause::IllegalInstruction
    } else if code == LOAD_ACCESS_FAULT {
        FaultCause::LoadAccessFault
    } else if code == STORE_ACCESS_FAULT {
        FaultCause::StoreAccessFault
    } else {
        FaultCause::Unknown { code }
    }
}

/// Whether an exception code is an environment call (from any mode).
pub open spec fn is_ecall(code: u64) -> bool {
    code == USER_ECALL || code == SUPERVISOR_ECALL || code == MACHINE_ECALL
}

/// Decide an exception's outcome. An environment call — a task yielding or
/// exiting — succeeds and hands back the address of the next instruction,
/// so the call is not re-executed on resume. Every other exception is a
/// fault: the kernel has no user isolation, so an access fault or illegal
/// instruction is a kernel bug and the hart must halt with the reported
/// cause.
pub fn handle_exception(code: u64, epc: usize) -> (r: Result<usize, Fault>)
    requires
        // An ecall's epc addresses a whole instruction, so stepping past
        // it stays in the address space.
        is_ecall(code) ==> epc + ECALL_WIDTH <= usize::MAX,
    ensures
        is_ecall(code) ==> r == Ok::<usize, Fault>((epc + ECALL_WIDTH) as usize),
        !is_ecall(code) ==> r == Err::<usize, Fault>(
            Fault { cause: fault_cause_of(code), epc },
        ),
{
    if code == USER_ECALL || code == SUPERVISOR_ECALL || code == MACHINE_ECALL {
        Ok(epc + ECALL_WIDTH)
    } else if code == INSTRUCTION_ACCESS_FAULT {
        Err(Fault { cause: FaultCause::InstructionAccessFault, epc })
    } else if code == ILLEGAL_INSTRUCTION {
        Err(Fault { cause: FaultCause::IllegalInstruction, epc })
    } else if code == LOAD_ACCESS_FAULT {
        Err(Fault { cause: FaultCause::LoadAccessFault, epc })
    } else if code == STORE_ACCESS_FAULT {
        Err(Fault { cause: FaultCause::StoreAccessFault, epc })
    } else {
        Err(Fault { cause: FaultCause::Unknown { code }, epc })
    }
}

/// What handling one claimed external interrupt asks of the embedding:
/// a byte to echo to the console, and a claim to complete.
#[derive(Clone, Copy, PartialEq, Eq, Structural, Debug)]
pub struct ExternalIrqOutcome {
    /// Echo this received byte back to the console.
    pub echo: Option<u8>,
    /// Write this claim back to the controller to complete it.
    pub complete: Option<u32>,
}

/// Decide what to do with a claimed external interrupt. The UART's
/// interrupt echoes the received byte, if the line status showed one,
/// and completes the claim; a zero claim means no interrupt was pending
/// and nothing is done; any other source is unhandled — a platform the
/// kernel does not know, fatal like a fault.
pub fn handle_external_interrupt(claimed_irq: u32, rx_byte: Option<u8>) -> (r: Result<
    ExternalIrqOutcome,
    u32,
>)
    ensures
        claimed_irq == 0 ==> r == Ok::<ExternalIrqOutcome, u32>(
            ExternalIrqOutcome { echo: None, complete: None },
        ),
        claimed_irq == crate::soc::UART_IRQ ==> r == Ok::<ExternalIrqOutcome, u32>(
            ExternalIrqOutcome { echo: rx_byte, complete: Some(claimed_irq) },
        ),
        claimed_irq != 0 && claimed_irq != crate::soc::UART_IRQ ==> r == Err::<
            ExternalIrqOutcome,
            u32,
        >(claimed_irq),
{
    if claimed_irq == 0 {
        Ok(ExternalIrqOutcome { echo: None, complete: None })
    } else if claimed_irq == crate::soc::UART_IRQ {
        Ok(ExternalIrqOutcome { echo: rx_byte, complete: Some(claimed_irq) })
    } else {
        Err(claimed_irq)
    }
}

/// What the trap entry must do on its way out: write `new_epc` to the
/// exception-pc register, and perform the listed hardware actions.
#[derive(Clone, Copy, Debug)]
pub struct TrapResult {
    /// The program counter to return from the trap to.
    pub new_epc: usize,
    /// A firmware timer call to arm the next tick, if this trap was one.
    pub rearm: Option<SbiCall>,
    /// Whether the pending software-interrupt bit must be cleared.
    pub clear_ipi: bool,
    /// Whether the external-interrupt claim/complete cycle must run.
    pub claim_external: bool,
}

/// The high-level trap dispatcher: from the trap-cause word and the
/// interrupted program counter, decide the whole trap's outcome.
///
/// A timer interrupt arms the next tick and schedules; a software
/// interrupt clears its pending bit and schedules; an external interrupt
/// asks the embedding to run the interrupt controller's claim/complete
/// cycle and resumes where it left off; an environment call schedules
/// with the address after the call; a fault is fatal and reported — the
/// scheduler is never touched on a fault, the hart halts instead. `now`
/// is the real-time counter, read for the timer rearm.
pub fn trap_handler(
    sched: &mut Scheduler,
    regs: &mut RegisterFile,
    cause: u64,
    epc: usize,
    now: u64,
) -> (r: Result<TrapResult, Fault>)
    requires
        // An ecall's epc addresses a whole instruction, so stepping past
        // it stays in the address space.
        !cause_is_interrupt(cause) && is_ecall(cause_code(cause)) ==> epc + ECALL_WIDTH
            <= usize::MAX,
        // The counter is 64-bit at boot; one interval more fits.
        cause_is_interrupt(cause) && cause_code(cause) == TIMER_INTERRUPT ==> now + INTERVAL
            <= u64::MAX,
    ensures
        ({
            let code = cause_code(cause);
            let untouched = {
                &&& final(sched).current() == old(sched).current()
                &&& final(sched).queue() == old(sched).queue()
                &&& final(sched).idle() == old(sched).idle()
                &&& *final(regs) == *old(regs)
            };
            if cause_is_interrupt(cause) {
                if code == TIMER_INTERRUPT {
                    &&& r matches Ok(t)
                    &&& t.rearm == Some(set_timer_call((now + INTERVAL) as u64))
                    &&& !t.clear_ipi
                    &&& !t.claim_external
                    &&& schedule_rel(
                        *old(sched),
                        *old(regs),
                        epc,
                        *final(sched),
                        *final(regs),
                        t.new_epc,
                    )
                } else if code == SOFTWARE_INTERRUPT {
                    &&& r matches Ok(t)
                    &&& t.rearm is None
                    &&& t.clear_ipi
                    &&& !t.claim_external
                    &&& schedule_rel(
                        *old(sched),
                        *old(regs),
                        epc,
                        *final(sched),
                        *final(regs),
                        t.new_epc,
                    )
                } else if code == EXTERNAL_INTERRUPT {
                    &&& r matches Ok(t)
                    &&& t == (TrapResult {
                        new_epc: epc,
                        rearm: None,
                        clear_ipi: false,
                        claim_external: true,
                    })
                    &&& untouched
                } else {
                    // An interrupt source the kernel does not use: ignore.
                    &&& r matches Ok(t)
                    &&& t == (TrapResult {
                        new_epc: epc,
                        rearm: None,
                        clear_ipi: false,
                        claim_external: false,
                    })
                    &&& untouched
                }
            } else {
                if is_ecall(code) {
                    &&& r matches Ok(t)
                    &&& t.rearm is None
                    &&& !t.clear_ipi
                    &&& !t.claim_external
                    &&& schedule_rel(
                        *old(sched),
                        *old(regs),
                        (epc + ECALL_WIDTH) as usize,
                        *final(sched),
                        *final(regs),
                        t.new_epc,
                    )
                } else {
                    &&& r == Err::<TrapResult, Fault>(
                        Fault { cause: fault_cause_of(code), epc },
                    )
                    &&& untouched
                }
            }
        }),
        old(sched).wf() ==> final(sched).wf(),
{
    let is_interrupt = cause & CAUSE_INTERRUPT_FLAG != 0;
    let code = cause & !CAUSE_INTERRUPT_FLAG;

    if is_interrupt {
        if code == TIMER_INTERRUPT {
            let rearm = timer::schedule_next(now);
            let new_epc = sched.schedule(regs, epc);
            Ok(TrapResult { new_epc, rearm: Some(rearm), clear_ipi: false, claim_external: false })
        } else if code == SOFTWARE_INTERRUPT {
            let new_epc = sched.schedule(regs, epc);
            Ok(TrapResult { new_epc, rearm: None, clear_ipi: true, claim_external: false })
        } else if code == EXTERNAL_INTERRUPT {
            Ok(TrapResult { new_epc: epc, rearm: None, clear_ipi: false, claim_external: true })
        } else {
            Ok(TrapResult { new_epc: epc, rearm: None, clear_ipi: false, claim_external: false })
        }
    } else {
        match handle_exception(code, epc) {
            Ok(stepped_pc) => {
                let new_epc = sched.schedule(regs, stepped_pc);
                Ok(
                    TrapResult {
                        new_epc,
                        rearm: None,
                        clear_ipi: false,
                        claim_external: false,
                    },
                )
            },
            Err(fault) => Err(fault),
        }
    }
}

} // verus!
