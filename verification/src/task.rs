//! Tasks: the unit the scheduler hands harts to.
//!
//! A task owns its register frame, a kind — `Main`, the boot thread of a
//! hart, or `User`, a spawned task bound to its own fixed-size stack — and a
//! scheduling state. Spawning distributes tasks across harts round-robin by
//! a ticket counter and wakes a remote target with a software interrupt.

pub mod context;
pub mod scheduler;

use vstd::prelude::*;

use crate::arch::CpuTable;
use crate::interrupt::IrqState;
use crate::sbi::SbiCall;
use crate::task::context::Context;
use crate::task::scheduler::Scheduler;

verus! {

/// Size of the stack bound to every spawned task.
pub const STACK_SIZE: usize = 1024 * 16;

/// Where a task stands with its scheduler.
#[derive(Clone, Copy, PartialEq, Eq, Structural, Debug)]
pub enum TaskState {
    /// Waiting in some hart's ready queue to be picked.
    Ready,
    /// The task a hart is currently running.
    Running,
    /// Finished; destroyed at the next scheduling decision unless `Main`.
    Dead,
}

/// What kind of thread a task is.
#[derive(Clone, Copy, PartialEq, Eq, Structural, Debug)]
pub enum TaskKind {
    /// A spawned task, bound at creation to the stack whose top (exclusive
    /// end address) is recorded here; the binding never changes.
    User { stack_top: usize },
    /// The boot thread of a hart: it has no owned stack and is never
    /// destroyed.
    Main,
}

/// One schedulable thread of execution.
#[derive(Clone, Copy, PartialEq, Eq, Structural, Debug)]
pub struct Task {
    pub context: Context,
    pub kind: TaskKind,
    pub state: TaskState,
}

impl Task {
    /// The `Main` task a hart's scheduler is seeded with: a zeroed frame
    /// that the first switch away from the boot thread fills in.
    pub fn main() -> (t: Task)
        ensures
            t == (Task { context: Context::zeroed(), kind: TaskKind::Main, state: TaskState::Ready }),
    {
        Task { context: Context::default(), kind: TaskKind::Main, state: TaskState::Ready }
    }

    /// The task value a spawn enqueues: a fresh user task.
    pub open spec fn fresh_user(
        trampoline: usize,
        stack_top: usize,
        data: usize,
        vtable: usize,
    ) -> Task {
        Task {
            context: Context::entry_frame(trampoline, stack_top, data, vtable),
            kind: TaskKind::User { stack_top },
            state: TaskState::Ready,
        }
    }

    /// Build a ready user task around a one-shot payload. The payload is
    /// already flattened to its two machine words (`data`, `vtable`); the
    /// task's frame enters the trampoline on the given stack, which the task
    /// is bound to for its whole life.
    pub fn new_user(trampoline: usize, stack_top: usize, data: usize, vtable: usize) -> (t: Task)
        ensures
            t == Task::fresh_user(trampoline, stack_top, data, vtable),
    {
        Task {
            context: Context::with_entry(trampoline, stack_top, data, vtable),
            kind: TaskKind::User { stack_top },
            state: TaskState::Ready,
        }
    }

    /// Ask for the task to die at its next scheduling decision — the exit
    /// path does this to the current task before raising its self-trap.
    /// A `Main` task never transitions to `Dead`: the attempt is refused and
    /// reported, and the task is left untouched.
    pub fn mark_dead(&mut self) -> (accepted: bool)
        ensures
            old(self).kind is Main ==> !accepted && *final(self) == *old(self),
            old(self).kind is User ==> accepted && *final(self) == (Task {
                state: TaskState::Dead,
                ..*old(self)
            }),
    {
        match self.kind {
            TaskKind::Main => false,
            TaskKind::User { .. } => {
                self.state = TaskState::Dead;
                true
            },
        }
    }

    /// The exit path, entered when a task's payload returns: under the
    /// hart's scheduler lock, mark the current task dead, then release
    /// the lock. The caller must then force an immediate reschedule by
    /// raising the hart's software-interrupt pending bit — never by
    /// scheduling here, which would have to return on a stack about to be
    /// freed — and halt if control ever comes back.
    ///
    /// Returns whether the task will die: a `Main` task never does, the
    /// attempt is refused and the boot thread lives on.
    pub fn exit(sched: &mut crate::spin::Mutex<Scheduler>, irq: &mut IrqState) -> (died: bool)
        requires
            old(sched).wf(),
            !old(sched).is_locked(),
        ensures
            final(sched).wf(),
            !final(sched).is_locked(),
            final(irq).enabled == old(irq).enabled,
            final(sched).value().queue() == old(sched).value().queue(),
            final(sched).value().idle() == old(sched).value().idle(),
            died == !(old(sched).value().current().kind is Main),
            died ==> final(sched).value().current() == (Task {
                state: TaskState::Dead,
                ..old(sched).value().current()
            }),
            !died ==> final(sched).value().current() == old(sched).value().current(),
    {
        let (mut s, guard) = sched.lock(irq);
        let task = s.task_mut();
        let died = task.mark_dead();
        sched.unlock(s, guard, irq);
        died
    }

    /// Spawn a task: pick the target hart round-robin by the table's
    /// ticket counter, enqueue a fresh user task there under that hart's
    /// scheduler lock, and — the lock released first, so the woken hart
    /// never spins on a lock the spawner still holds — decide the wakeup.
    /// A remote target gets a software interrupt aimed at its physical
    /// id; the local hart needs none, its next timer tick suffices. The
    /// returned call, if any, is that interrupt.
    pub fn spawn(
        table: &mut CpuTable,
        irq: &mut IrqState,
        current_hart: usize,
        trampoline: usize,
        stack_top: usize,
        data: usize,
        vtable: usize,
    ) -> (ipi: Option<SbiCall>)
        requires
            old(table).wf(),
            current_hart < old(table).cpu_seq().len(),
        ensures
            crate::arch::spawn_rel(
                *old(table),
                *old(irq),
                *final(table),
                *final(irq),
                current_hart,
                trampoline,
                stack_top,
                data,
                vtable,
                ipi,
            ),
    {
        crate::arch::spawn_task(
            table,
            irq,
            current_hart,
            trampoline,
            stack_top,
            data,
            vtable,
        )
    }
}

} // verus!
