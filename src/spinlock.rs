//! A busy-waiting mutual-exclusion lock around a single value.
//!
//! The exclusive-access flag is an atomic boolean that `lock` moves from
//! unlocked to locked with a compare-and-exchange, spinning until it wins;
//! dropping the guard stores unlocked again. Both atomic operations are
//! sequentially consistent, which includes the acquire ordering on taking
//! the lock and the release ordering on giving it back: whatever one holder
//! wrote is seen by the next.
//!
//! The flag, the cell that holds the value and the ghost protocol tying them
//! together are those of `vstd::rwlock::RwLock`, used here in exclusive mode
//! only: Verus proves there that a value is handed out to at most one holder
//! at a time and comes back on release. A `SpinLockGuard` carries the value
//! while the lock is held and gives it back when it is dropped; dropping the
//! `SpinLock` itself drops the value.
use std::ops::{Deref, DerefMut};
use vstd::prelude::*;
use vstd::rwlock::{RwLock, RwLockPredicate, WriteHandle};

verus! {

/// The lock places no constraint on the values it protects.
struct AnyValue;

impl<T> RwLockPredicate<T> for AnyValue {
    open spec fn inv(self, v: T) -> bool {
        true
    }
}

/// A value of type `T` behind an atomic exclusive-access flag.
///
/// `SpinLock<T>` is `Sync` and `Send` when `T` is both, so it may then be
/// shared between threads, for instance behind an `Arc`; a lock around a
/// value that must stay on its thread (an `Rc`) is neither.
pub struct SpinLock<T> {
    cell: Option<RwLock<T, AnyValue>>,
}

/// Exclusive access to the value of a locked `SpinLock`.
///
/// Only `SpinLock::lock` makes one, and it can be neither copied nor cloned.
/// Dropping it (at the end of its scope, or while unwinding) releases the
/// lock.
///
/// The underlying verified lock lends its value out by moving it: while the
/// lock is held the value travels inside the guard and goes back into the
/// lock on release. A guard that is leaked (`std::mem::forget`) therefore
/// keeps the value and leaves the lock locked for good.
pub struct SpinLockGuard<'a, T> {
    value: Option<T>,
    handle: Option<WriteHandle<'a, T, AnyValue>>,
}

impl<T> SpinLock<T> {
    /// A lock holds its cell from construction until it is dropped.
    #[verifier::type_invariant]
    spec fn live(&self) -> bool {
        self.cell is Some
    }

    /// Puts `value` behind a fresh lock, in the unlocked state.
    pub fn new(value: T) -> (s: Self) {
        SpinLock { cell: Some(RwLock::new(value, Ghost(AnyValue))) }
    }

    /// Spins until the flag moves from unlocked to locked for this caller,
    /// then hands out the value through a guard bound to `self`.
    ///
    /// There is no timeout and no fairness; a thread that calls `lock` while
    /// it still holds a guard of the same lock spins forever.
    pub fn lock(&self) -> (g: SpinLockGuard<'_, T>)
        ensures
            g.lock() == *self,
    {
        proof {
            use_type_invariant(self);
        }
        let cell = match &self.cell {
            Some(cell) => cell,
            None => unreached(),
        };
        let (value, handle) = cell.acquire_write();
        SpinLockGuard { value: Some(value), handle: Some(handle) }
    }
}

impl<'a, T> SpinLockGuard<'a, T> {
    /// While a guard lives it holds both the value and the write permission.
    #[verifier::type_invariant]
    spec fn held(&self) -> bool {
        self.value is Some && self.handle is Some
    }

    /// The lock this guard was handed out by.
    pub closed spec fn lock(&self) -> SpinLock<T> {
        SpinLock { cell: Some(self.handle->0.rwlock()) }
    }

    /// The protected value, as this guard currently holds it.
    pub closed spec fn view(&self) -> T {
        self.value->0
    }
}

/// Mutable access to the content of an `Option` known to be `Some`.
fn some_mut<T>(o: &mut Option<T>) -> (r: &mut T)
    requires
        old(o).is_some(),
    ensures
        *r == old(o).unwrap(),
        *final(o) == Some(*final(r)),
    no_unwind
{
    match o {
        Some(v) => v,
        None => unreached(),
    }
}

impl<'a, T> Deref for SpinLockGuard<'a, T> {
    type Target = T;

    /// Reads the protected value.
    fn deref(&self) -> (r: &T)
        ensures
            *r == self@,
    {
        proof {
            use_type_invariant(self);
        }
        self.value.as_ref().unwrap()
    }
}

impl<'a, T> DerefMut for SpinLockGuard<'a, T> {
    /// Gives mutable access to the protected value; what is written through
    /// the reference is what the guard holds afterwards.
    fn deref_mut(&mut self) -> (r: &mut T)
        ensures
            *r == old(self)@,
            final(self)@ == *final(r),
            final(self).lock() == old(self).lock(),
    {
        proof {
            use_type_invariant(&*self);
        }
        some_mut(&mut self.value)
    }
}

impl<T> Drop for SpinLock<T> {
    /// Takes the value back out of the cell and drops it, so that a lock
    /// destroys what it protects.
    ///
    /// Getting the value out means taking the lock once more: if a guard of
    /// this lock was leaked (`std::mem::forget`), this spins forever. As for
    /// the guard's `drop`, Verus refuses a verified body here, since taking
    /// the lock opens its atomic invariant; this one only hands the cell to
    /// the verified `RwLock::into_inner`.
    #[verifier::external_body]
    fn drop(&mut self)
        opens_invariants none
        no_unwind
    {
        if let Some(cell) = self.cell.take() {
            drop(cell.into_inner());
        }
    }
}

impl<'a, T> Drop for SpinLockGuard<'a, T> {
    /// Puts the value back and clears the flag.
    ///
    /// Verus accepts a verified `drop` only if it opens no invariant, and
    /// clearing the flag goes through the atomic invariant of the lock, so
    /// this body is taken on trust. It does no more than hand the value and
    /// the write permission to `WriteHandle::release_write`, which is
    /// verified; the permission is moved out, so the flag is cleared once.
    #[verifier::external_body]
    fn drop(&mut self)
        opens_invariants none
        no_unwind
    {
        if let (Some(value), Some(handle)) = (self.value.take(), self.handle.take()) {
            handle.release_write(value);
        }
    }
}

} // verus!
