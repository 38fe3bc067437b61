//! The per-hart CPU records and the table that publishes them.
//!
//! The boot hart builds one record per hart — physical and logical id,
//! kernel and trap stack tops, and a scheduler seeded with that hart's
//! `Main` task — publishes the table once, and then starts the secondary
//! harts through firmware. Each hart keeps the address of its record in
//! its thread-pointer register; that register and the firmware trap are
//! the embedding's, the table's contents and the start calls are decided
//! here.

use vstd::prelude::*;

use crate::interrupt::IrqState;
use crate::sbi;
use crate::sbi::SbiCall;
use crate::spin::Mutex;
use crate::timer;
use crate::task::scheduler::{lemma_owners_queue_push, owners_in_sched, Scheduler};
use crate::task::{Task, TaskKind, TaskState};
use crate::task::context::Context;

verus! {

/// Boot progress, observed by secondary harts to gate their entry into
/// the runtime.
#[derive(Clone, Copy, PartialEq, Eq, Structural, Debug)]
pub enum BootStage {
    /// Nothing set up; the boot hart has yet to zero memory.
    ColdBoot,
    /// Zeroed memory; the boot hart is building the tables.
    BssReady,
    /// Tables published; secondary harts may enter the runtime.
    TablesReady,
}

/// The order of boot stages.
pub open spec fn stage_rank(s: BootStage) -> int {
    match s {
        BootStage::ColdBoot => 0,
        BootStage::BssReady => 1,
        BootStage::TablesReady => 2,
    }
}

/// The boot-progress flag: written only by the boot hart, and only
/// forward — it never steps back to an earlier stage.
pub struct BootFlag {
    stage: BootStage,
}

impl BootFlag {
    /// The stage the flag shows.
    pub closed spec fn stage(&self) -> BootStage {
        self.stage
    }

    /// A fresh flag: cold boot.
    pub fn new() -> (f: BootFlag)
        ensures
            f.stage() == BootStage::ColdBoot,
    {
        BootFlag { stage: BootStage::ColdBoot }
    }

    /// Read the flag.
    pub fn load(&self) -> (s: BootStage)
        ensures
            s == self.stage(),
    {
        self.stage
    }

    /// Advance the flag. Boot progress is monotone: a store that would
    /// move it backwards is outside the contract.
    pub fn advance(&mut self, next: BootStage)
        requires
            stage_rank(old(self).stage()) <= stage_rank(next),
        ensures
            final(self).stage() == next,
    {
        self.stage = next;
    }
}

/// One hart's record: its ids, its stacks, and its scheduler behind the
/// interrupt-disabling lock.
pub struct Cpu {
    pub physical_id: usize,
    pub logical_id: usize,
    pub scheduler: Mutex<Scheduler>,
    pub stack_top: usize,
    pub trap_stack_top: usize,
}

/// The table of all harts, indexed by logical id, together with the
/// ticket counter that distributes spawned tasks across them.
pub struct CpuTable {
    pub(crate) cpus: Vec<Cpu>,
    pub(crate) ticket: usize,
}

impl CpuTable {
    /// The per-hart records, indexed by logical id.
    pub closed spec fn cpu_seq(&self) -> Seq<Cpu> {
        self.cpus@
    }

    /// The spawn ticket: how many tasks have been spawned (wrapping).
    pub closed spec fn ticket(&self) -> usize {
        self.ticket
    }

    /// A well-formed table: at least the boot hart; logical ids dense in
    /// table order; every scheduler lock free, internally consistent and
    /// holding a well-formed scheduler; every physical id small enough to
    /// be a bit of the single-word firmware IPI mask.
    pub open spec fn wf(&self) -> bool {
        &&& self.cpu_seq().len() >= 1
        &&& forall|i: int| 0 <= i < self.cpu_seq().len() ==> {
            let cpu = #[trigger] self.cpu_seq()[i];
            &&& cpu.logical_id == i
            &&& cpu.scheduler.wf()
            &&& !cpu.scheduler.is_locked()
            &&& cpu.scheduler.value().wf()
            &&& cpu.physical_id < 64
        }
    }

    /// Build the table: one record per hart of the id map, each with the
    /// stacks the embedding allocated for it and a scheduler seeded with
    /// a `Main` task for that hart's boot thread.
    pub fn build(
        physical_ids: &Vec<usize>,
        stack_tops: &Vec<usize>,
        trap_stack_tops: &Vec<usize>,
    ) -> (t: CpuTable)
        requires
            physical_ids@.len() >= 1,
            stack_tops@.len() == physical_ids@.len(),
            trap_stack_tops@.len() == physical_ids@.len(),
            forall|i: int| 0 <= i < physical_ids@.len() ==> #[trigger] physical_ids@[i] < 64,
        ensures
            t.wf(),
            t.ticket() == 0,
            t.cpu_seq().len() == physical_ids@.len(),
            forall|i: int| 0 <= i < t.cpu_seq().len() ==> {
                let cpu = #[trigger] t.cpu_seq()[i];
                &&& cpu.physical_id == physical_ids@[i]
                &&& cpu.logical_id == i
                &&& cpu.stack_top == stack_tops@[i]
                &&& cpu.trap_stack_top == trap_stack_tops@[i]
                &&& cpu.scheduler.value().current() == (Task {
                    context: Context::zeroed(),
                    kind: TaskKind::Main,
                    state: TaskState::Ready,
                })
                &&& cpu.scheduler.value().queue() == Seq::<Task>::empty()
            },
    {
        let n = physical_ids.len();
        let mut cpus: Vec<Cpu> = Vec::new();
        let mut i: usize = 0;
        while i < n
            invariant
                n == physical_ids@.len(),
                stack_tops@.len() == n,
                trap_stack_tops@.len() == n,
                forall|k: int| 0 <= k < n ==> #[trigger] physical_ids@[k] < 64,
                i <= n,
                cpus@.len() == i,
                forall|k: int| 0 <= k < i ==> {
                    let cpu = #[trigger] cpus@[k];
                    &&& cpu.physical_id == physical_ids@[k]
                    &&& cpu.logical_id == k
                    &&& cpu.stack_top == stack_tops@[k]
                    &&& cpu.trap_stack_top == trap_stack_tops@[k]
                    &&& cpu.scheduler.wf()
                    &&& !cpu.scheduler.is_locked()
                    &&& cpu.scheduler.value().wf()
                    &&& cpu.physical_id < 64
                    &&& cpu.scheduler.value().current() == (Task {
                        context: Context::zeroed(),
                        kind: TaskKind::Main,
                        state: TaskState::Ready,
                    })
                    &&& cpu.scheduler.value().queue() == Seq::<Task>::empty()
                },
            decreases n - i,
        {
            let cpu = Cpu {
                physical_id: physical_ids[i],
                logical_id: i,
                scheduler: Mutex::new(Scheduler::with_task(Task::main())),
                stack_top: stack_tops[i],
                trap_stack_top: trap_stack_tops[i],
            };
            cpus.push(cpu);
            i = i + 1;
        }
        CpuTable { cpus, ticket: 0 }
    }

    /// How many harts the table holds.
    pub fn hart_count(&self) -> (n: usize)
        ensures
            n == self.cpu_seq().len(),
    {
        self.cpus.len()
    }

    /// One hart's record, read-only.
    pub fn cpu(&self, logical_id: usize) -> (c: &Cpu)
        requires
            logical_id < self.cpu_seq().len(),
        ensures
            *c == self.cpu_seq()[logical_id as int],
    {
        &self.cpus[logical_id]
    }

    /// One hart's record, mutably — per-hart initialization and the
    /// embedding's scheduler driving go through this.
    pub fn cpu_mut(&mut self, logical_id: usize) -> (c: &mut Cpu)
        requires
            logical_id < old(self).cpu_seq().len(),
        ensures
            *c == old(self).cpu_seq()[logical_id as int],
            final(self).cpu_seq() == old(self).cpu_seq().update(
                logical_id as int,
                *final(c),
            ),
            final(self).ticket() == old(self).ticket(),
    {
        vstd::std_specs::vec::vec_index_mut(&mut self.cpus, logical_id)
    }
}

/// The spawn ticket after one spawn: the counter is a machine word and
/// wraps at its limit.
pub open spec fn ticket_next(t: usize) -> usize {
    if t == usize::MAX {
        0
    } else {
        (t + 1) as usize
    }
}

/// Everything one spawn does, as a relation between the CPU table and
/// interrupt state before (`t0`, `irq0`) and after (`t1`, `irq1`), the
/// spawner's hart, the fresh task's ingredients, and the wakeup decision
/// `ipi`.
pub open spec fn spawn_rel(
    t0: CpuTable,
    irq0: IrqState,
    t1: CpuTable,
    irq1: IrqState,
    current_hart: usize,
    trampoline: usize,
    stack_top: usize,
    data: usize,
    vtable: usize,
    ipi: Option<SbiCall>,
) -> bool {
    let n = t0.cpu_seq().len() as int;
    let target = t0.ticket() as int % n;
    let fresh = Task::fresh_user(trampoline, stack_top, data, vtable);
    let cpu0 = t0.cpu_seq()[target];
    let cpu1 = t1.cpu_seq()[target];
    &&& t1.wf()
    &&& t1.cpu_seq().len() == n
    &&& t1.ticket() == ticket_next(t0.ticket())
    // The scheduler lock is taken and released around the enqueue, so the
    // spawner's interrupt state comes back exactly as it was.
    &&& irq1.enabled == irq0.enabled
    // Every other hart's record is untouched: the new task has exactly
    // one owner.
    &&& forall|i: int| 0 <= i < n && i != target ==> t1.cpu_seq()[i] == t0.cpu_seq()[i]
    // The target's record keeps its identity and stacks; only its
    // scheduler queue grows, by the fresh task at the tail.
    &&& cpu1.physical_id == cpu0.physical_id
    &&& cpu1.logical_id == cpu0.logical_id
    &&& cpu1.stack_top == cpu0.stack_top
    &&& cpu1.trap_stack_top == cpu0.trap_stack_top
    &&& !cpu1.scheduler.is_locked()
    &&& cpu1.scheduler.value().queue() == cpu0.scheduler.value().queue().push(fresh)
    &&& cpu1.scheduler.value().current() == cpu0.scheduler.value().current()
    &&& cpu1.scheduler.value().idle() == cpu0.scheduler.value().idle()
    // The wakeup: a software interrupt at the target's physical id,
    // exactly when the target is another hart.
    &&& ipi == if target != current_hart as int {
        Some(sbi::send_ipi_call((1u64 << cpu0.physical_id) as usize))
    } else {
        Option::<SbiCall>::None
    }
}

/// The spawn path's work on the table: bump the ticket, enqueue the fresh
/// task on the chosen hart under its lock, decide the wakeup.
pub(crate) fn spawn_task(
    table: &mut CpuTable,
    irq: &mut IrqState,
    current_hart: usize,
    trampoline: usize,
    stack_top: usize,
    data: usize,
    vtable: usize,
) -> (ipi: Option<SbiCall>)
    requires
        old(table).wf(),
        current_hart < old(table).cpu_seq().len(),
    ensures
        spawn_rel(
            *old(table),
            *old(irq),
            *final(table),
            *final(irq),
            current_hart,
            trampoline,
            stack_top,
            data,
            vtable,
            ipi,
        ),
{
    let n = table.cpus.len();
    let ticket = table.ticket;
    let target = ticket % n;
    // The ticket counter wraps, as the machine word it models does.
    if table.ticket == usize::MAX {
        table.ticket = 0;
    } else {
        table.ticket = table.ticket + 1;
    }

    let task = Task::new_user(trampoline, stack_top, data, vtable);
    let cpu: &mut Cpu = vstd::std_specs::vec::vec_index_mut(&mut table.cpus, target);
    let (mut sched, guard) = cpu.scheduler.lock(irq);
    sched.add_task(task);
    cpu.scheduler.unlock(sched, guard, irq);

    proof {
        assert forall|i: int| 0 <= i < table.cpu_seq().len() implies {
            let c = #[trigger] table.cpu_seq()[i];
            &&& c.logical_id == i
            &&& c.scheduler.wf()
            &&& !c.scheduler.is_locked()
            &&& c.scheduler.value().wf()
            &&& c.physical_id < 64
        } by {
            if i != target as int {
                assert(table.cpu_seq()[i] == old(table).cpu_seq()[i]);
            }
        }
    }

    let target_phys = table.cpus[target].physical_id;
    if target != current_hart {
        Some(timer::send(target_phys))
    } else {
        None
    }
}

/// How many schedulers' holdings across the records `cpus` reference the
/// task bound to stack `st`.
pub open spec fn owners_in_cpus(cpus: Seq<Cpu>, st: usize) -> nat
    decreases cpus.len(),
{
    if cpus.len() == 0 {
        0
    } else {
        owners_in_cpus(cpus.drop_last(), st) + owners_in_sched(
            cpus.last().scheduler.value(),
            st,
        )
    }
}

/// How many references the whole system holds to the task bound to
/// stack `st`.
pub open spec fn owners_of(t: CpuTable, st: usize) -> nat {
    owners_in_cpus(t.cpu_seq(), st)
}

/// Changing one hart's record moves the total ownership count by exactly
/// that record's change.
proof fn lemma_owners_cpus_update(cpus0: Seq<Cpu>, cpus1: Seq<Cpu>, target: int, st: usize)
    requires
        cpus0.len() == cpus1.len(),
        0 <= target < cpus0.len(),
        forall|i: int| 0 <= i < cpus0.len() && i != target ==> cpus1[i] == cpus0[i],
    ensures
        owners_in_cpus(cpus1, st) + owners_in_sched(cpus0[target].scheduler.value(), st)
            == owners_in_cpus(cpus0, st) + owners_in_sched(cpus1[target].scheduler.value(), st),
    decreases cpus0.len(),
{
    let n = cpus0.len() as int;
    if target == n - 1 {
        assert(cpus1.drop_last() =~= cpus0.drop_last());
    } else {
        lemma_owners_cpus_update(cpus0.drop_last(), cpus1.drop_last(), target, st);
        assert(cpus0.drop_last()[target] == cpus0[target]);
        assert(cpus1.drop_last()[target] == cpus1[target]);
        assert(cpus1.last() == cpus0.last());
    }
}

/// No double ownership: a spawn gives the fresh task to exactly one
/// scheduler across all harts. If no scheduler referenced the stack the
/// task is bound to before — the embedding hands every spawn a stack of
/// its own — then exactly one reference to it exists afterwards, and no
/// other task's reference count moves at all.
pub proof fn lemma_spawn_single_owner(
    t0: CpuTable,
    irq0: IrqState,
    t1: CpuTable,
    irq1: IrqState,
    current_hart: usize,
    trampoline: usize,
    stack_top: usize,
    data: usize,
    vtable: usize,
    ipi: Option<SbiCall>,
)
    requires
        t0.wf(),
        spawn_rel(
            t0,
            irq0,
            t1,
            irq1,
            current_hart,
            trampoline,
            stack_top,
            data,
            vtable,
            ipi,
        ),
        owners_of(t0, stack_top) == 0,
    ensures
        owners_of(t1, stack_top) == 1,
        forall|st: usize| st != stack_top ==> owners_of(t1, st) == owners_of(t0, st),
{
    let n = t0.cpu_seq().len() as int;
    let target = t0.ticket() as int % n;
    let fresh = Task::fresh_user(trampoline, stack_top, data, vtable);
    lemma_owners_cpus_update(t0.cpu_seq(), t1.cpu_seq(), target, stack_top);
    lemma_owners_queue_push(t0.cpu_seq()[target].scheduler.value().queue(), fresh, stack_top);
    assert forall|st: usize| st != stack_top implies owners_of(t1, st) == owners_of(t0, st) by {
        lemma_owners_cpus_update(t0.cpu_seq(), t1.cpu_seq(), target, st);
        lemma_owners_queue_push(t0.cpu_seq()[target].scheduler.value().queue(), fresh, st);
    }
}

/// The firmware calls that bring the secondary harts up: one hart-start
/// per record after the boot hart's, handing each its entry address and,
/// as the opaque boot word, its own kernel stack top. The boot hart
/// (logical 0) is already running and gets no call.
pub fn start_harts(table: &CpuTable, entry: usize) -> (calls: Vec<SbiCall>)
    requires
        table.wf(),
    ensures
        calls@.len() == table.cpu_seq().len() - 1,
        forall|i: int| 0 <= i < calls@.len() ==> #[trigger] calls@[i] == sbi::hart_start_call(
            table.cpu_seq()[i + 1].physical_id,
            entry,
            table.cpu_seq()[i + 1].stack_top,
        ),
{
    let n = table.cpus.len();
    let mut calls: Vec<SbiCall> = Vec::new();
    let mut i: usize = 1;
    while i < n
        invariant
            n == table.cpu_seq().len(),
            1 <= i <= n,
            calls@.len() == i - 1,
            forall|k: int| 0 <= k < calls@.len() ==> #[trigger] calls@[k]
                == sbi::hart_start_call(
                table.cpu_seq()[k + 1].physical_id,
                entry,
                table.cpu_seq()[k + 1].stack_top,
            ),
        decreases n - i,
    {
        let cpu = &table.cpus[i];
        calls.push(sbi::hart_start(cpu.physical_id, entry, cpu.stack_top));
        i = i + 1;
    }
    calls
}

} // verus!
