//! The interrupt-disabling spinlock.
//!
//! A trap handler on the same hart may contend for the same lock, so
//! `lock` disables local interrupts before acquiring and the release
//! restores whatever the pre-lock state was: while the lock is held, the
//! holding hart cannot be re-entered and deadlock on itself. The
//! disable-then-acquire order matters — a trap between the two merely
//! spins until the outer holder releases.
//!
//! Ownership of the protected value models mutual exclusion: `lock` hands
//! the value out together with a guard that remembers the pre-lock
//! interrupt state, and `unlock` takes both back. While one caller holds
//! the value, no other path can reach it.

use vstd::prelude::*;

use crate::interrupt::IrqState;

verus! {

/// A spinlock around a value of type `T`, tied to the interrupt state of
/// the hart that takes it.
pub struct Mutex<T> {
    locked: bool,
    data: Option<T>,
}

/// Proof of a held [`Mutex`]: remembers whether local interrupts were
/// enabled when the lock was taken, so the release can restore them.
pub struct MutexGuard {
    pub irq_was_enabled: bool,
}

/// What acquiring does to the hart's interrupt-enable bit: it is left
/// disabled, and its prior value is recorded in the guard. The pair is
/// (enable bit while held, value recorded in the guard).
pub open spec fn lock_irq_transition(enabled_before: bool) -> (bool, bool) {
    (false, enabled_before)
}

/// What releasing does to the hart's interrupt-enable bit: it becomes
/// whatever the guard recorded.
pub open spec fn unlock_irq_transition(guard_saved: bool) -> bool {
    guard_saved
}

impl<T> Mutex<T> {
    /// Whether the lock is currently held.
    pub closed spec fn is_locked(&self) -> bool {
        self.locked
    }

    /// The protected value; meaningful only while the lock is free.
    pub closed spec fn value(&self) -> T
        recommends
            !self.is_locked(),
    {
        self.data->Some_0
    }

    /// The lock's internal consistency: it holds the value exactly while
    /// nobody else does. Constructors establish it and every operation
    /// preserves it.
    pub closed spec fn wf(&self) -> bool {
        self.locked <==> self.data is None
    }

    /// A new, free lock protecting `data`.
    pub fn new(data: T) -> (m: Mutex<T>)
        ensures
            m.wf(),
            !m.is_locked(),
            m.value() == data,
    {
        Mutex { locked: false, data: Some(data) }
    }

    /// Acquire the lock: sample the hart's interrupt-enable state, disable
    /// local interrupts, take ownership of the protected value. The guard
    /// keeps the sampled state for the release. Taking a lock this hart
    /// already holds would spin against itself forever, so a held lock is
    /// outside the contract.
    pub fn lock(&mut self, irq: &mut IrqState) -> (r: (T, MutexGuard))
        requires
            old(self).wf(),
            !old(self).is_locked(),
        ensures
            final(self).wf(),
            final(self).is_locked(),
            r.0 == old(self).value(),
            (final(irq).enabled, r.1.irq_was_enabled) == lock_irq_transition(
                old(irq).enabled,
            ),
    {
        let was_enabled = irq.enabled;
        if was_enabled {
            crate::interrupt::disable(irq);
        }
        self.locked = true;
        let data = self.data.take();
        let value = match data {
            Some(v) => v,
            None => unreached(),
        };
        (value, MutexGuard { irq_was_enabled: was_enabled })
    }

    /// Release the lock: give the protected value back, then restore the
    /// hart's interrupt-enable state to what the matching `lock` sampled.
    pub fn unlock(&mut self, data: T, guard: MutexGuard, irq: &mut IrqState)
        requires
            old(self).wf(),
            old(self).is_locked(),
        ensures
            final(self).wf(),
            !final(self).is_locked(),
            final(self).value() == data,
            final(irq).enabled == unlock_irq_transition(guard.irq_was_enabled),
    {
        self.data = Some(data);
        self.locked = false;
        if guard.irq_was_enabled {
            crate::interrupt::enable(irq);
        } else {
            crate::interrupt::disable(irq);
        }
    }
}

/// The lock discipline as one law, over the transitions [`Mutex::lock`]
/// and [`Mutex::unlock`] promise: while the lock is held local interrupts
/// are disabled on the holding hart, and releasing with the guard the
/// acquisition returned restores the interrupt-enable bit to exactly its
/// pre-lock value — a lock/unlock pair is invisible to it.
pub proof fn lemma_lock_restores_irq(enabled_before: bool)
    ensures
        !lock_irq_transition(enabled_before).0,
        unlock_irq_transition(lock_irq_transition(enabled_before).1) == enabled_before,
{
}

} // verus!
