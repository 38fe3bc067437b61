//! A lazily-initialized cell: it carries its initializer until the first
//! use, runs it exactly once, and serves the cached value ever after.

use vstd::prelude::*;

verus! {

/// A value of type `T`, not computed until first asked for by the
/// one-shot initializer `F`.
pub struct LazyLock<T, F> {
    data: Option<T>,
    init: Option<F>,
}

impl<T, F: FnOnce() -> T> LazyLock<T, F> {
    /// Whether the value has been computed.
    pub closed spec fn is_initialized(&self) -> bool {
        self.data is Some
    }

    /// The cached value; meaningful once initialized.
    pub closed spec fn value(&self) -> T
        recommends
            self.is_initialized(),
    {
        self.data->Some_0
    }

    /// The initializer still waiting to run; meaningful until then.
    pub closed spec fn initializer(&self) -> F
        recommends
            !self.is_initialized(),
    {
        self.init->Some_0
    }

    /// The cell holds exactly one of the two: the initializer before
    /// first use, the value after.
    pub closed spec fn wf(&self) -> bool {
        self.data is Some <==> self.init is None
    }

    /// A new cell that will call `init` when first forced.
    pub fn new(init: F) -> (l: LazyLock<T, F>)
        ensures
            l.wf(),
            !l.is_initialized(),
            l.initializer() == init,
    {
        LazyLock { data: None, init: Some(init) }
    }

    /// The value, computing it on the first call: afterwards the cell is
    /// initialized, the stored value came from the initializer (its
    /// postcondition holds of it), and later calls return it unchanged.
    pub fn force(&mut self) -> (r: &T)
        requires
            old(self).wf(),
            !old(self).is_initialized() ==> call_requires(old(self).initializer(), ()),
        ensures
            final(self).wf(),
            final(self).is_initialized(),
            *r == final(self).value(),
            old(self).is_initialized() ==> final(self).value() == old(self).value(),
            !old(self).is_initialized() ==> call_ensures(
                old(self).initializer(),
                (),
                final(self).value(),
            ),
    {
        if self.data.is_none() {
            let f = match self.init.take() {
                Some(f) => f,
                None => unreached(),
            };
            let v = f();
            self.data = Some(v);
        }
        match &self.data {
            Some(v) => v,
            None => unreached(),
        }
    }
}

} // verus!
