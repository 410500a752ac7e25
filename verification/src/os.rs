//! Model of the operating-system surface the override touches.
//!
//! The process and affinity calls mutate state that lives outside the
//! program, so they are modelled here as transitions on an explicit
//! [`OsState`] value: the masks the kernel would report, the handle the next
//! acquisition would yield, whether the query and set calls succeed, and a
//! count of every call issued.  The verified algorithm runs against this
//! model; an unverified shell replays the same decisions against the real
//! system calls.

use vstd::prelude::*;
use crate::handle::HANDLE;
use crate::handle::OwnedHandle;
use crate::handle::handle_valid;

verus! {

/// The observable state of the operating system, as far as the affinity
/// override is concerned.
#[derive(Clone, Copy, Debug, PartialEq, Eq, Structural)]
pub struct OsState {
    /// Affinity mask of the process: bit `i` set iff the process may run on
    /// processor `i`.  Read fresh on every adjustment attempt.
    pub process_affinity: u64,
    /// Affinity mask of the whole system: the upper bound of available
    /// processors.
    pub system_affinity: u64,
    /// The raw value the next handle acquisition returns; the null or
    /// all-bits-set sentinel when acquisition fails.
    pub next_handle: u64,
    /// The diagnostic code the last failed call left behind.
    pub last_error: u32,
    /// Whether an affinity query through a valid handle succeeds.
    pub query_ok: bool,
    /// Whether an affinity mutation through a valid handle succeeds.
    pub set_ok: bool,
    /// How many handle acquisitions were issued.
    pub open_calls: u64,
    /// How many affinity queries were issued.
    pub query_calls: u64,
    /// How many affinity mutations were issued.
    pub set_calls: u64,
    /// How many handle releases were issued.
    pub release_calls: u64,
}

/// `os` after one more handle acquisition was recorded.
pub open spec fn with_open_recorded(os: OsState) -> OsState {
    OsState { open_calls: (os.open_calls + 1) as u64, ..os }
}

/// `os` after one more affinity query was recorded.
pub open spec fn with_query_recorded(os: OsState) -> OsState {
    OsState { query_calls: (os.query_calls + 1) as u64, ..os }
}

/// `os` after one more affinity mutation was recorded; the process mask
/// changes to `new_mask` only when the mutation succeeds.
pub open spec fn with_set_recorded(os: OsState, new_mask: u64) -> OsState {
    OsState {
        set_calls: (os.set_calls + 1) as u64,
        process_affinity: if os.set_ok { new_mask } else { os.process_affinity },
        ..os
    }
}

/// `os` after one more handle release was recorded.
pub open spec fn with_release_recorded(os: OsState) -> OsState {
    OsState { release_calls: (os.release_calls + 1) as u64, ..os }
}

impl OsState {
    /// Every call counter still has headroom for one more recorded call.
    pub open spec fn counters_ok(self) -> bool {
        &&& self.open_calls < u64::MAX
        &&& self.query_calls < u64::MAX
        &&& self.set_calls < u64::MAX
        &&& self.release_calls < u64::MAX
    }

    /// Acquires a handle to the current process with full access rights.
    /// The returned value is whatever the system yields; its validity is for
    /// the caller to test.
    pub fn open_process(&mut self) -> (h: HANDLE)
        requires
            old(self).open_calls < u64::MAX,
        ensures
            h.0 == old(self).next_handle,
            *final(self) == with_open_recorded(*old(self)),
    {
        self.open_calls = self.open_calls + 1;
        HANDLE(self.next_handle)
    }

    /// Queries the process and system affinity masks through a valid handle.
    /// Returns `Some((process_mask, system_mask))` on success, `None` when
    /// the system refuses the query.
    pub fn query_affinity(&mut self, handle: &OwnedHandle) -> (r: Option<(u64, u64)>)
        requires
            handle_valid(handle.raw()),
            old(self).query_calls < u64::MAX,
        ensures
            *final(self) == with_query_recorded(*old(self)),
            r == (if old(self).query_ok {
                Some((old(self).process_affinity, old(self).system_affinity))
            } else {
                None::<(u64, u64)>
            }),
    {
        self.query_calls = self.query_calls + 1;
        if self.query_ok {
            Some((self.process_affinity, self.system_affinity))
        } else {
            None
        }
    }

    /// Applies `new_mask` as the process affinity mask through a valid
    /// handle.  A mask of zero would make the process unschedulable and is
    /// never issued.  Returns whether the system accepted the mutation.
    pub fn set_affinity(&mut self, handle: &OwnedHandle, new_mask: u64) -> (ok: bool)
        requires
            handle_valid(handle.raw()),
            new_mask != 0,
            old(self).set_calls < u64::MAX,
        ensures
            ok == old(self).set_ok,
            *final(self) == with_set_recorded(*old(self), new_mask),
    {
        self.set_calls = self.set_calls + 1;
        if self.set_ok {
            self.process_affinity = new_mask;
            true
        } else {
            false
        }
    }
}

} // verus!
