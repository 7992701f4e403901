//! Synchronization primitives.

use vstd::prelude::*;

verus! {

/// Objects implementing this trait guarantee exclusive access to the data
/// wrapped behind the lock for the duration of the borrow that `lock`
/// returns.
pub trait Mutex {
    /// The type of the data that is wrapped by this mutex.
    type Data;

    /// The wrapped data, for use in contracts.
    spec fn spec_data(&self) -> Self::Data;

    /// Locks the mutex and grants temporary exclusive access to the wrapped
    /// data.
    fn lock(&mut self) -> (r: &mut Self::Data)
        ensures
            *r == old(self).spec_data(),
            final(self).spec_data() == *final(r),
    ;
}

/// A pseudo-lock for teaching purposes.
///
/// In contrast to a real mutex implementation, it does not protect against
/// concurrent access from other cores. The kernel runs single-threaded on a
/// single core with interrupts disabled, so exclusive access within the one
/// thread of control — which Rust's `&mut` borrow expresses directly — is all
/// the exclusion there is to provide.
pub struct NullLock<T> {
    data: T,
}

impl<T> NullLock<T> {
    /// Create an instance.
    pub fn new(data: T) -> (r: Self)
        ensures
            r.spec_data() == data,
    {
        NullLock { data }
    }

    /// Read-only view of the wrapped data. The kernel is single-threaded, so
    /// a shared borrow cannot race with a lock holder.
    pub fn peek(&self) -> (r: &T)
        ensures
            *r == self.spec_data(),
    {
        &self.data
    }
}

impl<T> Mutex for NullLock<T> {
    type Data = T;

    closed spec fn spec_data(&self) -> T {
        self.data
    }

    fn lock(&mut self) -> (r: &mut T) {
        &mut self.data
    }
}

} // verus!
