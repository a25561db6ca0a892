//! A value shared between a reading side and a writing side behind one lock.

use vstd::prelude::*;
use vstd::rwlock::{RwLock, RwLockPredicate};
use std::sync::Arc;

verus! {

/// The lock accepts every value.
pub struct AnyValue;

impl<T> RwLockPredicate<T> for AnyValue {
    open spec fn inv(self, v: T) -> bool {
        true
    }
}

/// The side of a shared value that only reads it.
pub struct ReadHandle<T> {
    inner: Arc<RwLock<T, AnyValue>>,
}

/// The side of a shared value that may change it.
pub struct WriteHandle<T> {
    inner: Arc<RwLock<T, AnyValue>>,
}

/// Calls `Arc::clone`: the new pointer points at the same allocation, so it holds the
/// same value.
#[verifier::external_body]
fn arc_clone<T>(a: &Arc<T>) -> (r: Arc<T>)
    ensures
        r == *a,
{
    a.clone()
}

impl<T> ReadHandle<T> {
    /// The lock this handle reads through.
    pub closed spec fn lock(&self) -> RwLock<T, AnyValue> {
        *self.inner
    }

    /// Another handle on the same lock.
    pub fn clone_handle(&self) -> (r: Self)
        ensures
            r.lock() == self.lock(),
    {
        ReadHandle { inner: arc_clone(&self.inner) }
    }

    /// Runs `f` on the current value, under the read lock.
    pub fn with_read<R, F: FnOnce(&T) -> R>(&self, f: F) -> (r: R)
        requires
            forall|v: &T| f.requires((v,)),
        ensures
            exists|v: &T| f.ensures((v,), r),
    {
        let guard = self.inner.acquire_read();
        let r = f(guard.borrow());
        guard.release_read();
        r
    }
}

impl<T> WriteHandle<T> {
    /// The lock this handle writes through.
    pub closed spec fn lock(&self) -> RwLock<T, AnyValue> {
        *self.inner
    }

    /// Runs `f` on the current value, under the write lock, keeps what `f` left, and
    /// returns what `f` returned.
    pub fn with_write<R, F: FnOnce(&mut T) -> R>(&self, f: F) -> (r: R)
        requires
            forall|v: &mut T| f.requires((v,)),
        ensures
            exists|v: &mut T| f.ensures((v,), r),
    {
        let (mut value, guard) = self.inner.acquire_write();
        let r = f(&mut value);
        guard.release_write(value);
        r
    }
}

/// Puts `container` behind a new lock and returns a reading and a writing handle on it.
pub fn rw_lock_handles<T>(container: T) -> (r: (ReadHandle<T>, WriteHandle<T>))
    ensures
        r.0.lock() == r.1.lock(),
{
    let inner = Arc::new(RwLock::new(container, Ghost(AnyValue)));
    (ReadHandle { inner: arc_clone(&inner) }, WriteHandle { inner })
}

} // verus!
