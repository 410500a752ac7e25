//! Process handles and their single-release ownership guard.

use vstd::prelude::*;
use crate::os::OsState;
use crate::os::with_release_recorded;

verus! {

/// A raw process-handle value is valid iff it is neither the null sentinel
/// nor the all-bits-set sentinel; both mean "acquisition failed".
pub open spec fn handle_valid(raw: u64) -> bool {
    raw != 0 && raw != u64::MAX
}

/// A raw process-handle value as the system hands it out.  A plain value
/// with no ownership attached; whether it may be used at all is decided by
/// [`HANDLE::is_valid`].
#[allow(non_camel_case_types)]
#[derive(Clone, Copy, Debug, PartialEq, Eq, Structural)]
pub struct HANDLE(pub u64);

impl HANDLE {
    /// True iff the value is neither sentinel, i.e. the acquisition that
    /// produced it succeeded.
    pub fn is_valid(&self) -> (r: bool)
        ensures
            r == handle_valid(self.0),
    {
        self.0 != 0 && self.0 != u64::MAX
    }
}

/// Sole owner of an acquired process handle.  The wrapped value can be
/// inspected, and the guard can be consumed exactly once by
/// [`OwnedHandle::release`]; an invalid sentinel is never released.
pub struct OwnedHandle {
    handle: HANDLE,
}

impl OwnedHandle {
    /// The raw value the guard owns.
    pub closed spec fn raw(self) -> u64 {
        self.handle.0
    }

    /// Takes ownership of a raw handle value freshly acquired from the
    /// system; the guard becomes its sole owner.
    pub fn new(handle: HANDLE) -> (guard: OwnedHandle)
        ensures
            guard.raw() == handle.0,
    {
        OwnedHandle { handle }
    }

    /// The wrapped raw handle value.
    pub fn get(&self) -> (h: HANDLE)
        ensures
            h.0 == self.raw(),
    {
        self.handle
    }

    /// True iff the owned value is a usable handle rather than a sentinel.
    pub fn is_valid(&self) -> (r: bool)
        ensures
            r == handle_valid(self.raw()),
    {
        self.handle.is_valid()
    }

    /// Ends the guard's ownership.  A valid handle is released back to the
    /// system exactly once; an invalid sentinel is never released.
    pub fn release(self, os: &mut OsState)
        requires
            old(os).release_calls < u64::MAX,
        ensures
            handle_valid(self.raw()) ==> *final(os) == with_release_recorded(*old(os)),
            !handle_valid(self.raw()) ==> *final(os) == *old(os),
    {
        if self.handle.is_valid() {
            os.release_calls = os.release_calls + 1;
        }
    }
}

} // verus!
