//! A cooperative mutex guarding a value.
//!
//! The hub's scheduler is single-threaded and cooperative, so the lock is
//! modelled as checking the guarded value out and back in: `try_lock`
//! hands out the one guard when the mutex is free, and a task that finds
//! it taken yields for a short backoff (through the sleep primitive) and
//! retries.  At most one guard is outstanding at any time: while the value
//! is checked out, `try_lock` yields nothing.

use vstd::prelude::*;

verus! {

/// A cooperative mutex; its view is the stored value, or `None` while the
/// value is checked out through a guard.
#[derive(Debug)]
pub struct Mutex<T> {
    value: Option<T>,
}

/// Exclusive access to the value of a [`Mutex`], from `try_lock` until
/// handed back with `unlock`.
#[derive(Debug)]
pub struct MutexGuard<T> {
    value: T,
}

impl<T> View for Mutex<T> {
    type V = Option<T>;

    closed spec fn view(&self) -> Option<T> {
        self.value
    }
}

impl<T> View for MutexGuard<T> {
    type V = T;

    closed spec fn view(&self) -> T {
        self.value
    }
}

impl<T> Mutex<T> {
    /// An unlocked mutex storing `data`.
    pub fn new(data: T) -> (r: Mutex<T>)
        ensures
            r@ == Some(data),
    {
        Mutex { value: Some(data) }
    }

    /// Tries to take the guard: hands it out when the mutex is free, and
    /// yields nothing while the value is already checked out.  A caller
    /// that gets nothing should back off briefly and retry.
    pub fn try_lock(&mut self) -> (r: Option<MutexGuard<T>>)
        ensures
            old(self)@ is Some ==> (r matches Some(g) && g@ == old(self)@->0),
            old(self)@ is None ==> r is None,
            final(self)@ is None,
    {
        let mut v: Option<T> = None;
        core::mem::swap(&mut v, &mut self.value);
        match v {
            Some(data) => Some(MutexGuard { value: data }),
            None => None,
        }
    }

    /// Stores the guard's value back, releasing the lock.
    pub fn unlock(&mut self, guard: MutexGuard<T>)
        requires
            old(self)@ is None,
        ensures
            final(self)@ == Some(guard@),
    {
        self.value = Some(guard.into_inner());
    }
}

impl<T> MutexGuard<T> {
    /// Reads the guarded value.
    pub fn get(&self) -> (r: &T)
        ensures
            *r == self@,
    {
        &self.value
    }

    /// Writes to the guarded value.
    pub fn get_mut(&mut self) -> (r: &mut T)
        ensures
            *r == old(self)@,
            final(self)@ == *final(r),
    {
        &mut self.value
    }

    /// Takes the guarded value out.
    pub fn into_inner(self) -> (r: T)
        ensures
            r == self@,
    {
        self.value
    }
}

} // verus!
