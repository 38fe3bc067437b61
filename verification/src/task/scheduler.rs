//! The per-hart round-robin scheduler.
//!
//! Each hart owns one `Scheduler`: the task it is running, a FIFO queue of
//! ready tasks, and an idle context — the scratch frame the hart's registers
//! are saved into when the departing task is being destroyed and offers
//! nowhere to save them.
//!
//! [`Scheduler::schedule`] is the heart of the subsystem: pop the queue
//! head, swap it in as the current task, decide the previous task's fate
//! (re-enqueue it ready, or — a dead user task — drop it and its stack),
//! switch register frames, and hand back the program counter to resume at.
//! In the kernel this runs only inside trap context, under the hart's
//! interrupt-disabling scheduler lock, and the lock is released before the
//! frames are switched because the switch changes stacks; the lock and the
//! stacks are the embedding's, so that ordering lives with the caller.

use std::collections::VecDeque;
use vstd::prelude::*;

use crate::task::context::{frame_with, regs_of, store_regs, switch_context, Context,
    RegisterFile};
use crate::task::{Task, TaskKind, TaskState};

verus! {

pub struct Scheduler {
    idle_context: Context,
    current_task: Task,
    waiting_tasks: VecDeque<Task>,
}

/// The previous task as `schedule` re-enqueues it: callee-saved registers
/// just stored from the live register file `r`, resume address set to the
/// interrupted program counter, and state back to `Ready`.
pub open spec fn requeued(t: Task, r: RegisterFile, interrupted_pc: usize) -> Task {
    Task { context: frame_with(r, interrupted_pc), kind: t.kind, state: TaskState::Ready }
}

/// Everything `schedule` does, as a relation between the scheduler, the
/// live register file and the interrupted program counter before the call
/// (`s0`, `r0`, `pc`) and the scheduler, register file and returned resume
/// address after it (`s1`, `r1`, `ret`).
pub open spec fn schedule_rel(
    s0: Scheduler,
    r0: RegisterFile,
    pc: usize,
    s1: Scheduler,
    r1: RegisterFile,
    ret: usize,
) -> bool {
    if s0.queue().len() == 0 {
        // Nothing else is ready: the current task simply continues.
        &&& s1.current() == s0.current()
        &&& s1.queue() == s0.queue()
        &&& s1.idle() == s0.idle()
        &&& r1 == r0
        &&& ret == pc
    } else {
        let next = s0.queue()[0];
        let prev = s0.current();
        &&& s1.current() == (Task { state: TaskState::Running, ..next })
        &&& r1 == regs_of(next.context)
        &&& ret == next.context.pc
        &&& if !(prev.state is Dead) || prev.kind is Main {
            // The previous task lives on: it rejoins the queue at the tail
            // with the hart's registers saved and its resume address set.
            &&& s1.queue() == s0.queue().drop_first().push(requeued(prev, r0, pc))
            &&& s1.idle() == s0.idle()
        } else {
            // A dead user task is dropped; the registers it cannot keep are
            // sunk into the idle context, which is never restored.
            &&& s1.queue() == s0.queue().drop_first()
            &&& s1.idle() == store_regs(s0.idle(), r0)
        }
    }
}

impl Scheduler {
    /// The task this hart is running (or about to run).
    pub closed spec fn current(&self) -> Task {
        self.current_task
    }

    /// The ready queue, head first.
    pub closed spec fn queue(&self) -> Seq<Task> {
        self.waiting_tasks@
    }

    /// The idle context.
    pub closed spec fn idle(&self) -> Context {
        self.idle_context
    }

    /// A scheduler is well formed when every queued task is `Ready` and no
    /// `Main` task — queued or current — is `Dead`.
    pub open spec fn wf(&self) -> bool {
        &&& forall|i: int| 0 <= i < self.queue().len() ==> (#[trigger] self.queue()[i]).state
            is Ready
        &&& self.current().kind is Main ==> !(self.current().state is Dead)
    }

    /// A scheduler starts with the given task as current, an empty queue
    /// and a zeroed idle context.
    pub fn with_task(task: Task) -> (s: Scheduler)
        ensures
            s.current() == task,
            s.queue() == Seq::<Task>::empty(),
            s.idle() == Context::zeroed(),
    {
        Scheduler {
            idle_context: Context::default(),
            current_task: task,
            waiting_tasks: VecDeque::new(),
        }
    }

    /// Borrow the current task mutably — the exit path uses this to mark
    /// the running task dead.
    pub fn task_mut(&mut self) -> (t: &mut Task)
        ensures
            *t == old(self).current(),
            final(self).current() == *final(t),
            final(self).queue() == old(self).queue(),
            final(self).idle() == old(self).idle(),
    {
        &mut self.current_task
    }

    /// The current task, read-only.
    pub fn task(&self) -> (t: &Task)
        ensures
            *t == self.current(),
    {
        &self.current_task
    }

    /// How many tasks wait in the ready queue.
    pub fn queue_len(&self) -> (n: usize)
        ensures
            n == self.queue().len(),
    {
        self.waiting_tasks.len()
    }

    /// The `i`-th waiting task from the queue head.
    pub fn queued(&self, i: usize) -> (t: &Task)
        requires
            i < self.queue().len(),
        ensures
            *t == self.queue()[i as int],
    {
        &self.waiting_tasks[i]
    }

    /// Push a ready task on the queue tail.
    pub fn add_task(&mut self, task: Task)
        requires
            task.state is Ready,
        ensures
            final(self).queue() == old(self).queue().push(task),
            final(self).current() == old(self).current(),
            final(self).idle() == old(self).idle(),
    {
        self.waiting_tasks.push_back(task);
    }

    /// One scheduling decision, driven by a trap that interrupted the
    /// current task at `interrupted_pc` while the hart's callee-saved
    /// registers held `*regs`.
    ///
    /// If the queue is empty the current task continues at `interrupted_pc`
    /// and nothing moves. Otherwise the queue head becomes the running
    /// task, the hart's registers are switched to its frame, and the
    /// returned address is where that task resumes: its saved `pc`. The
    /// previous task is re-enqueued ready (its frame rebuilt from the live
    /// registers and `interrupted_pc`) unless it is a dead user task, which
    /// is dropped — its register store is sunk into the idle context and
    /// its stack goes back to the heap with it.
    pub fn schedule(&mut self, regs: &mut RegisterFile, interrupted_pc: usize) -> (resume_pc:
        usize)
        ensures
            schedule_rel(
                *old(self),
                *old(regs),
                interrupted_pc,
                *final(self),
                *final(regs),
                resume_pc,
            ),
            old(self).wf() ==> final(self).wf(),
            old(self).wf() && old(self).queue().len() > 0 ==> final(self).current().state
                is Running,
    {
        let next = match self.waiting_tasks.pop_front() {
            Some(task) => task,
            None => {
                // No other task is ready; resume the interrupted one.
                return interrupted_pc;
            },
        };
        let mut prev = self.current_task;
        self.current_task = next;
        self.current_task.state = TaskState::Running;
        let resume_pc = self.current_task.context.pc;
        let next_frame = self.current_task.context;

        let prev_survives = match (prev.state, prev.kind) {
            (TaskState::Dead, TaskKind::Main) => true,
            (TaskState::Dead, TaskKind::User { .. }) => false,
            _ => true,
        };
        if prev_survives {
            prev.context.pc = interrupted_pc;
            prev.state = TaskState::Ready;
            switch_context(&mut prev.context, &next_frame, regs);
            self.waiting_tasks.push_back(prev);
        } else {
            switch_context(&mut self.idle_context, &next_frame, regs);
        }
        resume_pc
    }
}

/// The round-robin ring of a scheduler: the kind of the current task
/// followed by the kinds of the queued tasks, head first. One scheduling
/// event rotates this ring one step to the left.
pub open spec fn kinds_ring(s: Scheduler) -> Seq<TaskKind> {
    seq![s.current().kind] + s.queue().map_values(|t: Task| t.kind)
}

/// One left rotation of a ring.
pub open spec fn rotl(r: Seq<TaskKind>) -> Seq<TaskKind>
    recommends
        r.len() > 0,
{
    r.drop_first().push(r[0])
}

/// `k` left rotations of a ring.
pub open spec fn rotl_iter(r: Seq<TaskKind>, k: nat) -> Seq<TaskKind>
    decreases k,
{
    if k == 0 {
        r
    } else {
        rotl(rotl_iter(r, (k - 1) as nat))
    }
}

/// With a steady set of ready tasks — the queue is not empty and the
/// outgoing task survives — one scheduling event rotates the ring of task
/// kinds left by exactly one: the queue head becomes current and the
/// previous current task goes to the tail. Nothing joins and nothing
/// leaves.
pub proof fn lemma_schedule_rotates_ring(
    s0: Scheduler,
    r0: RegisterFile,
    pc: usize,
    s1: Scheduler,
    r1: RegisterFile,
    ret: usize,
)
    requires
        schedule_rel(s0, r0, pc, s1, r1, ret),
        s0.queue().len() > 0,
        !(s0.current().state is Dead) || s0.current().kind is Main,
    ensures
        kinds_ring(s1) == rotl(kinds_ring(s0)),
{
    assert(kinds_ring(s1) =~= rotl(kinds_ring(s0)));
}

/// Rotation bookkeeping: `k` rotations keep the ring's length, and move the
/// element initially at position `k` (mod the length) to the front.
pub proof fn lemma_rotl_iter_index(r: Seq<TaskKind>, k: nat)
    requires
        r.len() > 0,
    ensures
        rotl_iter(r, k).len() == r.len(),
        forall|i: int| 0 <= i < r.len() ==> rotl_iter(r, k)[i] == r[(i + k) % r.len() as int],
    decreases k,
{
    if k == 0 {
        assert forall|i: int| 0 <= i < r.len() implies rotl_iter(r, k)[i] == r[(i + k)
            % r.len() as int] by {
            vstd::arithmetic::div_mod::lemma_small_mod(i as nat, r.len());
        }
    }
    if k > 0 {
        lemma_rotl_iter_index(r, (k - 1) as nat);
        let prev = rotl_iter(r, (k - 1) as nat);
        assert forall|i: int| 0 <= i < r.len() implies rotl_iter(r, k)[i] == r[(i + k)
            % r.len() as int] by {
            let n = r.len() as int;
            if i < n - 1 {
                assert(rotl(prev)[i] == prev[i + 1]);
                assert((i + 1 + (k - 1)) % n == (i + k) % n);
            } else {
                assert(rotl(prev)[i] == prev[0]);
                assert((0 + (k - 1)) % n == (i + k) % n) by {
                    assert(i + k == n + (k - 1) as int);
                    vstd::arithmetic::div_mod::lemma_mod_add_multiples_vanish(
                        (k - 1) as int,
                        n,
                    );
                };
            }
        }
    }
}

/// Scheduler fairness: on a steady ring of `N` tasks, over any window of
/// `N` scheduling events each task is picked exactly once, in insertion
/// order. The task running after the `j`-th event of the window is the one
/// that initially stood at ring position `j mod N` — as `j` runs through
/// the window, that front slot visits every position exactly once, in
/// order.
pub proof fn lemma_round_robin_fairness(r: Seq<TaskKind>, j: nat)
    requires
        r.len() > 0,
        1 <= j <= r.len(),
    ensures
        rotl_iter(r, j)[0] == r[j as int % r.len() as int],
{
    lemma_rotl_iter_index(r, j);
}

/// The "exactly once" reading of fairness: on a steady ring whose members
/// are pairwise distinct, every ring member is the running task after
/// exactly one of the `N` scheduling events of a window — the one whose
/// number matches its ring position (with the task already running when
/// the window opened coming around last).
pub proof fn lemma_fair_window_exactly_once(r: Seq<TaskKind>, i: int)
    requires
        r.len() > 0,
        0 <= i < r.len(),
        forall|a: int, b: int| 0 <= a < b < r.len() ==> r[a] != r[b],
    ensures
        ({
            let j = if i == 0 {
                r.len() as int
            } else {
                i
            };
            &&& 1 <= j <= r.len()
            &&& rotl_iter(r, j as nat)[0] == r[i]
            &&& forall|j2: int| 1 <= j2 <= r.len() && j2 != j ==> #[trigger] rotl_iter(
                r,
                j2 as nat,
            )[0] != r[i]
        }),
{
    let n = r.len() as int;
    let j = if i == 0 {
        n
    } else {
        i
    };
    lemma_rotl_iter_index(r, j as nat);
    if i == 0 {
        vstd::arithmetic::div_mod::lemma_mod_self_0(n);
        vstd::arithmetic::div_mod::lemma_mod_add_multiples_vanish(0, n);
    } else {
        vstd::arithmetic::div_mod::lemma_small_mod(i as nat, r.len());
    }
    assert forall|j2: int| 1 <= j2 <= n && j2 != j implies #[trigger] rotl_iter(
        r,
        j2 as nat,
    )[0] != r[i] by {
        lemma_rotl_iter_index(r, j2 as nat);
        if j2 < n {
            vstd::arithmetic::div_mod::lemma_small_mod(j2 as nat, r.len());
        } else {
            vstd::arithmetic::div_mod::lemma_mod_self_0(n);
            vstd::arithmetic::div_mod::lemma_mod_add_multiples_vanish(0, n);
        }
    }
}

/// At most one task runs per hart: in a well-formed scheduler every queued
/// task is `Ready`, so the only task that can be `Running` is the current
/// one — and after any scheduling decision with a nonempty queue the
/// current task is `Running` (an `ensures` of [`Scheduler::schedule`]),
/// which makes it exactly one.
pub proof fn lemma_at_most_one_running(s: Scheduler)
    requires
        s.wf(),
    ensures
        forall|i: int| 0 <= i < s.queue().len() ==> !((#[trigger] s.queue()[i]).state
            is Running),
{
}

/// Whether `t` is the user task bound to the stack whose top is `st`.
/// Stacks are never rebound, so a task's stack identifies it for as long
/// as it lives.
pub open spec fn is_user_of(t: Task, st: usize) -> bool {
    t.kind == TaskKind::User { stack_top: st }
}

/// How many tasks in a queue are bound to stack `st`.
pub open spec fn owners_in_queue(q: Seq<Task>, st: usize) -> nat
    decreases q.len(),
{
    if q.len() == 0 {
        0
    } else {
        owners_in_queue(q.drop_last(), st) + if is_user_of(q.last(), st) {
            1nat
        } else {
            0nat
        }
    }
}

/// How many tasks a scheduler owns — current or queued — that are bound
/// to stack `st`.
pub open spec fn owners_in_sched(s: Scheduler, st: usize) -> nat {
    owners_in_queue(s.queue(), st) + if is_user_of(s.current(), st) {
        1nat
    } else {
        0nat
    }
}

/// Pushing one task on a queue adds its ownership count and nothing
/// else's.
pub proof fn lemma_owners_queue_push(q: Seq<Task>, t: Task, st: usize)
    ensures
        owners_in_queue(q.push(t), st) == owners_in_queue(q, st) + if is_user_of(t, st) {
            1nat
        } else {
            0nat
        },
{
    assert(q.push(t).drop_last() =~= q);
}

/// The queue's count splits off its head as well as its tail.
proof fn lemma_owners_queue_drop_first(q: Seq<Task>, st: usize)
    requires
        q.len() > 0,
    ensures
        owners_in_queue(q, st) == owners_in_queue(q.drop_first(), st) + if is_user_of(
            q[0],
            st,
        ) {
            1nat
        } else {
            0nat
        },
    decreases q.len(),
{
    if q.len() == 1 {
        assert(q.drop_first() =~= Seq::<Task>::empty());
        assert(q.drop_last() =~= Seq::<Task>::empty());
    } else {
        lemma_owners_queue_drop_first(q.drop_last(), st);
        assert(q.drop_last()[0] == q[0]);
        assert(q.drop_first().drop_last() =~= q.drop_last().drop_first());
        assert(q.drop_first().last() == q.last());
    }
}

/// A scheduling decision moves tasks between the hart's own slots but
/// never duplicates or leaks one: a surviving previous task keeps the
/// hart's reference counts exactly as they were, and reaping a dead user
/// task removes exactly that task's single reference — no other task's
/// count moves.
pub proof fn lemma_schedule_preserves_ownership(
    s0: Scheduler,
    r0: RegisterFile,
    pc: usize,
    s1: Scheduler,
    r1: RegisterFile,
    ret: usize,
    st: usize,
)
    requires
        schedule_rel(s0, r0, pc, s1, r1, ret),
        s0.queue().len() > 0,
    ensures
        !(s0.current().state is Dead) || s0.current().kind is Main ==> owners_in_sched(s1, st)
            == owners_in_sched(s0, st),
        s0.current().state is Dead && s0.current().kind is User ==> owners_in_sched(s1, st)
            == owners_in_sched(s0, st) - if is_user_of(s0.current(), st) {
            1nat
        } else {
            0nat
        },
{
    let q = s0.queue();
    let prev = s0.current();
    lemma_owners_queue_drop_first(q, st);
    if !(prev.state is Dead) || prev.kind is Main {
        lemma_owners_queue_push(q.drop_first(), requeued(prev, r0, pc), st);
    }
}

/// Main immortality at the scheduler: whatever state the outgoing current
/// task is in, if its kind is `Main` a scheduling decision re-enqueues it
/// rather than destroying it — the ring keeps its size and the `Main` task
/// sits at the tail.
pub proof fn lemma_main_never_destroyed(
    s0: Scheduler,
    r0: RegisterFile,
    pc: usize,
    s1: Scheduler,
    r1: RegisterFile,
    ret: usize,
)
    requires
        schedule_rel(s0, r0, pc, s1, r1, ret),
        s0.queue().len() > 0,
        s0.current().kind is Main,
    ensures
        s1.queue().len() == s0.queue().len(),
        s1.queue()[s1.queue().len() - 1].kind is Main,
{
}

} // verus!
