use multihart::interrupt::IrqState;
use multihart::spin::{AtomicLockState, LazyLock, LockState, Mutex, OnceLock};

#[test]
fn lock_disables_irqs_and_unlock_restores_them() {
    // Locking with interrupts enabled: disabled while held, re-enabled on
    // release.
    let mut irq = IrqState { enabled: true };
    let mut m = Mutex::new(42u64);
    let (v, g) = m.lock(&mut irq);
    assert!(!irq.enabled);
    assert_eq!(v, 42);
    m.unlock(v + 1, g, &mut irq);
    assert!(irq.enabled);

    // Locking with interrupts already disabled — a nested trap-context
    // lock — leaves them disabled after release.
    let mut irq = IrqState { enabled: false };
    let (v, g) = m.lock(&mut irq);
    assert!(!irq.enabled);
    assert_eq!(v, 43);
    m.unlock(v, g, &mut irq);
    assert!(!irq.enabled);
}

#[test]
fn one_shot_cell_set_race() {
    // Two harts race a set with distinct values: exactly one succeeds,
    // the loser gets its own value back, and every wait sees the winner.
    let mut cell: OnceLock<u32> = OnceLock::new();
    assert!(cell.get().is_none());

    let first = cell.set(7);
    assert_eq!(first, Ok(()));
    let second = cell.set(9);
    assert_eq!(second, Err(9));

    assert_eq!(cell.get(), Some(&7));
    assert_eq!(*cell.wait(), 7);
    assert_eq!(*cell.wait(), 7);
}

#[test]
fn one_shot_cell_every_later_set_fails() {
    let mut cell: OnceLock<u64> = OnceLock::new();
    assert_eq!(cell.set(100), Ok(()));
    for v in 101..110u64 {
        assert_eq!(cell.set(v), Err(v));
        assert_eq!(*cell.wait(), 100);
    }
}

#[test]
fn get_before_any_set_is_empty() {
    let cell: OnceLock<u8> = OnceLock::new();
    assert!(cell.get().is_none());
}

#[test]
fn lazy_lock_computes_once_and_caches() {
    let witness = vec![6, 7];
    let mut cell = LazyLock::new(move || witness[0] * witness[1]);
    assert_eq!(*cell.force(), 42);
    // The initializer is gone; the cached value is served again.
    assert_eq!(*cell.force(), 42);
}

#[test]
fn atomic_lock_state_compare_exchange() {
    let mut a = AtomicLockState::new(LockState::Empty);
    assert_eq!(a.load(), LockState::Empty);

    // Only the matching claim wins.
    let won = a.compare_exchange(LockState::Empty, LockState::Initializing);
    assert_eq!(won, Ok(LockState::Empty));
    assert_eq!(a.load(), LockState::Initializing);

    // A second claim of Empty finds Initializing and fails untouched.
    let lost = a.compare_exchange(LockState::Empty, LockState::Initializing);
    assert_eq!(lost, Err(LockState::Initializing));
    assert_eq!(a.load(), LockState::Initializing);

    a.store(LockState::Ready);
    assert_eq!(a.load(), LockState::Ready);
}
