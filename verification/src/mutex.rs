//! A stand-in for a bus mutex where the scheduler already serialises access.
use vstd::prelude::*;

verus! {

/// Holds a bus without locking anything. Only for use where no two users of
/// the bus can run at once.
pub struct DummyMutex<T> {
    inner: T,
}

impl<T> View for DummyMutex<T> {
    type V = T;

    closed spec fn view(&self) -> T {
        self.inner
    }
}

impl<T> DummyMutex<T> {
    /// Wraps `inner`.
    pub fn create(inner: T) -> (mutex: Self)
        ensures
            mutex@ == inner,
    {
        DummyMutex { inner }
    }

    /// Runs `f` on the bus and hands its result on.
    pub fn lock<R, F: FnOnce(&T) -> R>(&self, f: F) -> (result: R)
        requires
            f.requires((&self@,)),
        ensures
            f.ensures((&self@,), result),
    {
        f(&self.inner)
    }
}

} // verus!
