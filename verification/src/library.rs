//! Represents an instance of the CGNS library.
//!
//! The C library keeps global state and is not thread-safe, so at most one
//! [`LibraryHandle`] may exist at a time. [`LibraryLock`] is the flag that
//! records whether a handle is out.
use vstd::prelude::*;

verus! {

/// Message of the error returned when the library is already in use.
pub const LIBRARY_IN_USE: &'static str = "The CGNS library is already in use.";

/// Largest multiplier of the base pause between two attempts of
/// [`LibraryHandle::acquire`].
pub const MAX_SLEEP_MULTIPLIER: u32 = 500;

/// The flag recording whether the CGNS library is in use.
pub struct LibraryLock {
    in_use: bool,
}

impl View for LibraryLock {
    type V = bool;

    /// Whether a handle on the library is out.
    closed spec fn view(&self) -> bool {
        self.in_use
    }
}

/// An attempt to acquire the lock from the state `in_use`: whether it
/// succeeds, and the state of the lock after it.
pub open spec fn acquire_step(in_use: bool) -> (bool, bool) {
    if in_use {
        (false, in_use)
    } else {
        (true, true)
    }
}

/// The state of the lock after a handle is given back.
pub open spec fn release_step(in_use: bool) -> bool {
    false
}

impl LibraryLock {
    /// A lock with no handle out.
    pub fn new() -> (r: Self)
        ensures
            r@ == false,
    {
        LibraryLock { in_use: false }
    }

    /// Whether a handle is out.
    pub fn is_in_use(&self) -> (r: bool)
        ensures
            r == self@,
    {
        self.in_use
    }
}

/// Access to the CGNS library. Only one instance can exist at a time
/// due to the design of the CGNS library.
pub struct LibraryHandle {
    _private: (),
}

impl LibraryHandle {
    /// Tries to acquire the unique instance of [`LibraryHandle`].
    /// Returns [`Err`] if a handle is already out.
    pub fn try_acquire(lock: &mut LibraryLock) -> (r: Result<Self, &'static str>)
        ensures
            (r is Ok, final(lock)@) == acquire_step(old(lock)@),
            r matches Err(m) ==> m@ == LIBRARY_IN_USE@,
    {
        if lock.in_use {
            Err(LIBRARY_IN_USE)
        } else {
            lock.in_use = true;
            Ok(LibraryHandle { _private: () })
        }
    }

    /// Gives the handle back: the library is free again.
    pub fn release(self, lock: &mut LibraryLock)
        requires
            old(lock)@,
        ensures
            final(lock)@ == release_step(old(lock)@),
    {
        lock.in_use = false;
    }

    /// Makes a handle without taking the lock.
    ///
    /// This is as dangerous as reading a mutex's contents without locking
    /// it: the caller must make sure that no other handle is in use.
    pub fn fake_aquire() -> (r: Self) {
        LibraryHandle { _private: () }
    }

    /// The multiplier of the base pause before the next attempt of
    /// [`Self::acquire`], after an attempt that waited `multiplier` times it.
    pub fn next_sleep_multiplier(multiplier: u32) -> (r: u32)
        ensures
            r == if multiplier + 1 < MAX_SLEEP_MULTIPLIER { multiplier + 1 } else {
                MAX_SLEEP_MULTIPLIER as int
            },
    {
        if multiplier < MAX_SLEEP_MULTIPLIER - 1 {
            multiplier + 1
        } else {
            MAX_SLEEP_MULTIPLIER
        }
    }
}

/// While a handle is out, no second one can be acquired: when an attempt
/// succeeds, the next attempt made without a release fails.
pub proof fn law_one_handle_at_a_time(in_use: bool)
    ensures
        acquire_step(in_use).0 ==> !acquire_step(acquire_step(in_use).1).0,
{
}

/// Giving a handle back frees the library: the next attempt succeeds.
pub proof fn law_release_frees(in_use: bool)
    ensures
        acquire_step(release_step(in_use)).0,
{
}

/// A failed attempt leaves the lock as it was.
pub proof fn law_failed_attempt_changes_nothing(in_use: bool)
    ensures
        !acquire_step(in_use).0 ==> acquire_step(in_use).1 == in_use,
{
}

} // verus!
