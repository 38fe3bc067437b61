//! Interrupt-aware synchronization primitives: the interrupt-disabling
//! spinlock that guards each hart's scheduler, and the one-shot cell the
//! boot hart publishes the CPU table and hart-id map through.

pub mod lazy;
pub mod mutex;
pub mod once;

pub use lazy::LazyLock;
pub use mutex::Mutex;
pub use mutex::MutexGuard;
pub use once::AtomicLockState;
pub use once::LockState;
pub use once::OnceLock;
