//! The callee-saved register frame of a suspended task, and the switch that
//! moves a hart between two such frames.
//!
//! The real switch is a fixed store/load sequence of machine instructions;
//! here the live callee-saved registers are an explicit [`RegisterFile`]
//! value, and [`switch_context`] performs exactly the stores and loads that
//! the instruction sequence performs: it writes the live registers into the
//! outgoing frame and replaces them with the incoming frame's.

use vstd::prelude::*;

verus! {

/// The live callee-saved registers of a hart: return address, stack pointer
/// and the twelve saved integer registers.
#[derive(Clone, Copy, PartialEq, Eq, Structural, Debug)]
pub struct RegisterFile {
    pub ra: usize,
    pub sp: usize,
    pub s0: usize,
    pub s1: usize,
    pub s2: usize,
    pub s3: usize,
    pub s4: usize,
    pub s5: usize,
    pub s6: usize,
    pub s7: usize,
    pub s8: usize,
    pub s9: usize,
    pub s10: usize,
    pub s11: usize,
}

/// A suspended task's register frame: the fourteen callee-saved registers,
/// plus `pc`, the address the task resumes at. `pc` is not a machine
/// register; the scheduler transports the interrupted program counter in it,
/// and the switch never touches it.
#[derive(Clone, Copy, PartialEq, Eq, Structural, Debug)]
pub struct Context {
    pub ra: usize,
    pub sp: usize,
    pub s0: usize,
    pub s1: usize,
    pub s2: usize,
    pub s3: usize,
    pub s4: usize,
    pub s5: usize,
    pub s6: usize,
    pub s7: usize,
    pub s8: usize,
    pub s9: usize,
    pub s10: usize,
    pub s11: usize,
    pub pc: usize,
}

/// The callee-saved registers held in a frame, as a register file.
pub open spec fn regs_of(c: Context) -> RegisterFile {
    RegisterFile {
        ra: c.ra,
        sp: c.sp,
        s0: c.s0,
        s1: c.s1,
        s2: c.s2,
        s3: c.s3,
        s4: c.s4,
        s5: c.s5,
        s6: c.s6,
        s7: c.s7,
        s8: c.s8,
        s9: c.s9,
        s10: c.s10,
        s11: c.s11,
    }
}

/// The frame `c` with its callee-saved registers replaced by `r`; `pc` is
/// kept, since the switch never touches it.
pub open spec fn store_regs(c: Context, r: RegisterFile) -> Context {
    Context {
        ra: r.ra,
        sp: r.sp,
        s0: r.s0,
        s1: r.s1,
        s2: r.s2,
        s3: r.s3,
        s4: r.s4,
        s5: r.s5,
        s6: r.s6,
        s7: r.s7,
        s8: r.s8,
        s9: r.s9,
        s10: r.s10,
        s11: r.s11,
        pc: c.pc,
    }
}

/// A frame built from the register file `r` with resume address `pc`.
pub open spec fn frame_with(r: RegisterFile, pc: usize) -> Context {
    Context {
        ra: r.ra,
        sp: r.sp,
        s0: r.s0,
        s1: r.s1,
        s2: r.s2,
        s3: r.s3,
        s4: r.s4,
        s5: r.s5,
        s6: r.s6,
        s7: r.s7,
        s8: r.s8,
        s9: r.s9,
        s10: r.s10,
        s11: r.s11,
        pc,
    }
}

impl Default for Context {
    /// The zeroed frame: the idle context every scheduler starts with, and
    /// the base a fresh task frame is built on.
    fn default() -> (c: Context)
        ensures
            c == Context::zeroed(),
    {
        Context {
            ra: 0,
            sp: 0,
            s0: 0,
            s1: 0,
            s2: 0,
            s3: 0,
            s4: 0,
            s5: 0,
            s6: 0,
            s7: 0,
            s8: 0,
            s9: 0,
            s10: 0,
            s11: 0,
            pc: 0,
        }
    }
}

impl Context {
    /// The frame whose every register is zero.
    pub open spec fn zeroed() -> Context {
        Context {
            ra: 0,
            sp: 0,
            s0: 0,
            s1: 0,
            s2: 0,
            s3: 0,
            s4: 0,
            s5: 0,
            s6: 0,
            s7: 0,
            s8: 0,
            s9: 0,
            s10: 0,
            s11: 0,
            pc: 0,
        }
    }

    /// The initial frame of a fresh task: control enters the trampoline with
    /// an aligned stack, and the two payload words sit in the callee-saved
    /// slots the trampoline recovers them from. Every other register is
    /// zeroed rather than left indeterminate.
    pub open spec fn entry_frame(
        trampoline: usize,
        stack_top: usize,
        data: usize,
        vtable: usize,
    ) -> Context {
        Context {
            ra: trampoline,
            sp: (stack_top - (stack_top % 16)) as usize,
            s1: data,
            s2: vtable,
            pc: trampoline,
            ..Context::zeroed()
        }
    }

    /// Build the initial frame of a fresh task. The stack pointer is the
    /// given stack top rounded down to a 16-byte boundary, as the platform
    /// calling convention demands on entry to any task; `ra` and `pc` both
    /// hold the trampoline so that the first dispatch and a raw return both
    /// land there; `s1` and `s2` carry the payload's data and dispatch-table
    /// words for the trampoline to recover.
    pub fn with_entry(trampoline: usize, stack_top: usize, data: usize, vtable: usize) -> (c:
        Context)
        ensures
            c == Context::entry_frame(trampoline, stack_top, data, vtable),
            c.sp <= stack_top,
            c.sp % 16 == 0,
    {
        let sp: usize = stack_top & !0xF;
        assert((stack_top & !0xF) == stack_top - (stack_top % 16) && (stack_top & !0xF) % 16
            == 0) by (bit_vector);
        Context {
            ra: trampoline,
            sp,
            s0: 0,
            s1: data,
            s2: vtable,
            s3: 0,
            s4: 0,
            s5: 0,
            s6: 0,
            s7: 0,
            s8: 0,
            s9: 0,
            s10: 0,
            s11: 0,
            pc: trampoline,
        }
    }
}

/// Switch the hart from one register frame to another: store the live
/// callee-saved registers into `outgoing`, then load them from `incoming`.
/// Neither frame's `pc` moves; caller-saved registers are outside the model
/// just as they are outside the real store/load sequence.
pub fn switch_context(outgoing: &mut Context, incoming: &Context, regs: &mut RegisterFile)
    ensures
        *final(outgoing) == store_regs(*old(outgoing), *old(regs)),
        *final(regs) == regs_of(*incoming),
{
    outgoing.ra = regs.ra;
    outgoing.sp = regs.sp;
    outgoing.s0 = regs.s0;
    outgoing.s1 = regs.s1;
    outgoing.s2 = regs.s2;
    outgoing.s3 = regs.s3;
    outgoing.s4 = regs.s4;
    outgoing.s5 = regs.s5;
    outgoing.s6 = regs.s6;
    outgoing.s7 = regs.s7;
    outgoing.s8 = regs.s8;
    outgoing.s9 = regs.s9;
    outgoing.s10 = regs.s10;
    outgoing.s11 = regs.s11;
    regs.ra = incoming.ra;
    regs.sp = incoming.sp;
    regs.s0 = incoming.s0;
    regs.s1 = incoming.s1;
    regs.s2 = incoming.s2;
    regs.s3 = incoming.s3;
    regs.s4 = incoming.s4;
    regs.s5 = incoming.s5;
    regs.s6 = incoming.s6;
    regs.s7 = incoming.s7;
    regs.s8 = incoming.s8;
    regs.s9 = incoming.s9;
    regs.s10 = incoming.s10;
    regs.s11 = incoming.s11;
}

/// Switching away and back is register-invariant: if a hart running with
/// registers `r0` switches from frame `a` to frame `b`, and later some hart
/// holding `b`'s registers switches back to the frame that was saved for
/// `a`, the restored register file is exactly `r0` — no callee-saved
/// register observable to the suspended caller has moved.
pub proof fn lemma_switch_round_trip(a: Context, b: Context, r0: RegisterFile)
    ensures
        ({
            // Away: r0 is stored into a's frame, b's frame is loaded.
            let a_saved = store_regs(a, r0);
            let r1 = regs_of(b);
            // Back: r1 is stored into b's frame, a's saved frame is loaded.
            let b_saved = store_regs(b, r1);
            let r2 = regs_of(a_saved);
            r2 == r0
        }),
{
}

} // verus!
