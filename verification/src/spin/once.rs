//! The one-shot cell: a storage location that goes `Empty` →
//! `Initializing` → `Ready` exactly once and is read-only thereafter.
//!
//! The boot hart publishes the CPU table and the hart-id map through such
//! cells. A `set` claims the cell with a single compare-and-swap of
//! `Empty` to `Initializing`; only one claim in the whole system can win,
//! every later `set` is rejected with its own value, and a reader observes
//! the value exactly when it observes `Ready`.

use vstd::prelude::*;

verus! {

/// Publication state of a one-shot cell.
#[derive(Clone, Copy, PartialEq, Eq, Structural, Debug)]
pub enum LockState {
    /// Nothing published, nobody writing.
    Empty,
    /// A writer has claimed the cell and is storing the value.
    Initializing,
    /// The value is published and immutable.
    Ready,
}

/// A [`LockState`] with the access discipline of the hardware word it is
/// kept in: it is read and written only through loads, stores and
/// compare-exchanges.
pub struct AtomicLockState {
    state: LockState,
}

impl AtomicLockState {
    /// The state the word currently holds.
    pub closed spec fn view_state(&self) -> LockState {
        self.state
    }

    /// A new word holding `state`.
    pub fn new(state: LockState) -> (a: AtomicLockState)
        ensures
            a.view_state() == state,
    {
        AtomicLockState { state }
    }

    /// Read the word.
    pub fn load(&self) -> (s: LockState)
        ensures
            s == self.view_state(),
    {
        self.state
    }

    /// Replace the word's state with `target` if it currently equals
    /// `current`; either way, report what was found.
    pub fn compare_exchange(&mut self, current: LockState, target: LockState) -> (r: Result<
        LockState,
        LockState,
    >)
        ensures
            old(self).view_state() == current ==> r == Ok::<LockState, LockState>(current)
                && final(self).view_state() == target,
            old(self).view_state() != current ==> r == Err::<LockState, LockState>(
                old(self).view_state(),
            ) && final(self).view_state() == old(self).view_state(),
    {
        if self.state == current {
            self.state = target;
            Ok(current)
        } else {
            Err(self.state)
        }
    }

    /// Overwrite the word.
    pub fn store(&mut self, val: LockState)
        ensures
            final(self).view_state() == val,
    {
        self.state = val;
    }
}

/// A one-shot publication cell for a value of type `T`.
pub struct OnceLock<T> {
    state: AtomicLockState,
    data: Option<T>,
}

/// What one `set(v)` does to a cell seen in state `s` holding `d`:
/// the triple is (state after, contents after, whether the set won).
pub open spec fn set_transition<T>(s: LockState, d: Option<T>, v: T) -> (
    LockState,
    Option<T>,
    bool,
) {
    if s is Empty {
        (LockState::Ready, Some(v), true)
    } else {
        (s, d, false)
    }
}

impl<T> OnceLock<T> {
    /// The cell's publication state.
    pub closed spec fn state(&self) -> LockState {
        self.state.view_state()
    }

    /// The cell's contents.
    pub closed spec fn stored(&self) -> Option<T> {
        self.data
    }

    /// Whether the cell has published a value.
    pub open spec fn is_ready(&self) -> bool {
        self.state() is Ready
    }

    /// A published cell holds a value; an unpublished one holds none.
    /// `new` establishes it and `set` preserves it.
    pub closed spec fn wf(&self) -> bool {
        self.state() is Ready <==> self.data is Some
    }

    /// A new, empty cell.
    pub fn new() -> (c: OnceLock<T>)
        ensures
            c.wf(),
            c.state() is Empty,
            c.stored() is None,
    {
        OnceLock { state: AtomicLockState::new(LockState::Empty), data: None }
    }

    /// Read the cell: the published value exactly when the cell is
    /// `Ready`, nothing before.
    pub fn get(&self) -> (r: Option<&T>)
        requires
            self.wf(),
        ensures
            self.is_ready() ==> (r matches Some(v) && Some(*v) == self.stored()),
            !self.is_ready() ==> r is None,
    {
        match self.state.load() {
            LockState::Ready => {
                match &self.data {
                    Some(v) => Some(v),
                    None => unreached(),
                }
            },
            _ => None,
        }
    }

    /// Publish `value`, one-shot. The claim is a single compare-and-swap
    /// of `Empty` to `Initializing`, so of any set of concurrent callers
    /// exactly one can win it; the winner stores the value and marks the
    /// cell `Ready`. A loser — the cell was already claimed or published —
    /// gets its own value handed back untouched.
    pub fn set(&mut self, value: T) -> (r: Result<(), T>)
        requires
            old(self).wf(),
        ensures
            final(self).wf(),
            ({
                let (s1, d1, won) = set_transition(
                    old(self).state(),
                    old(self).stored(),
                    value,
                );
                &&& final(self).state() == s1
                &&& final(self).stored() == d1
                &&& r == if won {
                    Ok::<(), T>(())
                } else {
                    Err::<(), T>(value)
                }
            }),
    {
        let claim = self.state.compare_exchange(LockState::Empty, LockState::Initializing);
        match claim {
            Ok(_) => {
                self.data = Some(value);
                self.state.store(LockState::Ready);
                Ok(())
            },
            Err(_) => Err(value),
        }
    }

    /// The published value. On hardware this spins until the boot hart's
    /// release-store of `Ready` becomes visible; a caller in this model
    /// waits on a cell only once publication has happened, since nothing
    /// else could ever end the spin.
    pub fn wait(&self) -> (r: &T)
        requires
            self.wf(),
            self.is_ready(),
        ensures
            Some(*r) == self.stored(),
    {
        match &self.data {
            Some(v) => v,
            None => unreached(),
        }
    }
}

/// The fold of a whole sequence of `set` calls over an initially empty
/// cell: the state, contents and per-call outcomes after attempting
/// `vs[0]`, then `vs[1]`, and so on.
pub open spec fn cell_after_sets<T>(vs: Seq<T>) -> (LockState, Option<T>, Seq<bool>)
    decreases vs.len(),
{
    if vs.len() == 0 {
        (LockState::Empty, None, Seq::empty())
    } else {
        let (s, d, outcomes) = cell_after_sets(vs.drop_last());
        let (s1, d1, won) = set_transition(s, d, vs.last());
        (s1, d1, outcomes.push(won))
    }
}

/// The one-shot law: for any sequence of `set`s against an initially
/// empty cell — in whatever order a race interleaved them — exactly the
/// first succeeds, every later one is rejected, and the cell ends `Ready`
/// holding the first value, which is what every subsequent `get` or
/// `wait` observes.
pub proof fn lemma_one_shot<T>(vs: Seq<T>)
    requires
        vs.len() > 0,
    ensures
        cell_after_sets(vs).0 is Ready,
        cell_after_sets(vs).1 == Some(vs[0]),
        cell_after_sets(vs).2.len() == vs.len(),
        forall|i: int| 0 <= i < vs.len() ==> (#[trigger] cell_after_sets(vs).2[i] <==> i == 0),
    decreases vs.len(),
{
    if vs.len() == 1 {
        assert(vs.drop_last().len() == 0);
    } else {
        lemma_one_shot(vs.drop_last());
        assert(vs.drop_last()[0] == vs[0]);
    }
}

} // verus!
