//! The affinity-override algorithm and its guard conditions.

use vstd::prelude::*;
use crate::handle::OwnedHandle;
use crate::handle::handle_valid;
use crate::os::OsState;
use crate::os::with_open_recorded;
use crate::os::with_query_recorded;
use crate::os::with_release_recorded;
use crate::os::with_set_recorded;

verus! {

/// Everything that can go wrong between loading the configuration and
/// applying the narrowed affinity mask.  The payload is the diagnostic code
/// the system reported when the call failed.
#[derive(Clone, Copy, Debug, PartialEq, Eq, Structural)]
pub enum AffinityError {
    /// The configuration file was missing, unreadable, or malformed; the
    /// override is never scheduled.
    ConfigLoadFailed,
    /// The system refused to open a handle to the process.
    HandleAcquisitionFailed(u32),
    /// The system refused to report the affinity masks.
    AffinityQueryFailed(u32),
    /// Applying the exclusion would leave no processor the process may run
    /// on; the mutation is deliberately not issued.
    NoEligibleProcessors(u32),
    /// The system refused the affinity mutation.
    AffinityApplyFailed(u32),
}

/// What a look at the queried process mask decides.
#[derive(Clone, Copy, Debug, PartialEq, Eq, Structural)]
pub enum AffinityPlan {
    /// Processor 0 is already off: some earlier invocation (or another
    /// agent) adjusted the process, so there is nothing left to do.
    AlreadyAdjusted,
    /// Narrow the process mask to the carried value, which is never zero.
    SetMask(u64),
}

/// Guard A: processor 0 already off means the process is taken to be in the
/// desired state.
pub open spec fn already_adjusted(process_mask: u64) -> bool {
    process_mask & 1 == 0
}

/// The narrowed mask: the current process mask with every excluded
/// processor's bit cleared.
pub open spec fn cleared_mask(process_mask: u64, exclusion_mask: u64) -> u64 {
    process_mask & !exclusion_mask
}

/// What [`plan_exclusion`] returns for given masks and diagnostic code.
pub open spec fn spec_plan_exclusion(
    process_mask: u64,
    exclusion_mask: u64,
    last_error: u32,
) -> Result<AffinityPlan, AffinityError> {
    if already_adjusted(process_mask) {
        Ok(AffinityPlan::AlreadyAdjusted)
    } else if cleared_mask(process_mask, exclusion_mask) == 0 {
        Err(AffinityError::NoEligibleProcessors(last_error))
    } else {
        Ok(AffinityPlan::SetMask(cleared_mask(process_mask, exclusion_mask)))
    }
}

/// Decides what to do with a freshly queried process mask: nothing when
/// processor 0 is already off (guard A), a refusal when the exclusion would
/// leave no eligible processor (guard B), and otherwise the narrowed mask to
/// apply.
pub fn plan_exclusion(process_mask: u64, exclusion_mask: u64, last_error: u32) -> (r: Result<
    AffinityPlan,
    AffinityError,
>)
    ensures
        r == spec_plan_exclusion(process_mask, exclusion_mask, last_error),
{
    if process_mask & 1 != 1 {
        proof {
            assert(process_mask & 1 == 0 || process_mask & 1 == 1) by (bit_vector);
        }
        return Ok(AffinityPlan::AlreadyAdjusted);
    }
    proof {
        assert(process_mask & 1 == 0 || process_mask & 1 == 1) by (bit_vector);
    }
    let clear_mask = !exclusion_mask;
    let new_mask = process_mask & clear_mask;
    if new_mask == 0 {
        return Err(AffinityError::NoEligibleProcessors(last_error));
    }
    Ok(AffinityPlan::SetMask(new_mask))
}

/// The full adjustment as a transition on the modelled system state:
/// the state after one invocation of [`apply_exclusion`], paired with its
/// result.
pub open spec fn spec_apply_exclusion(os: OsState, exclusion_mask: u64) -> (OsState, Result<
    (),
    AffinityError,
>) {
    let opened = with_open_recorded(os);
    if !handle_valid(os.next_handle) {
        (opened, Err(AffinityError::HandleAcquisitionFailed(os.last_error)))
    } else {
        let queried = with_query_recorded(opened);
        if !os.query_ok {
            (with_release_recorded(queried), Err(AffinityError::AffinityQueryFailed(os.last_error)))
        } else if already_adjusted(os.process_affinity) {
            (with_release_recorded(queried), Ok(()))
        } else if cleared_mask(os.process_affinity, exclusion_mask) == 0 {
            (
                with_release_recorded(queried),
                Err(AffinityError::NoEligibleProcessors(os.last_error)),
            )
        } else {
            let set = with_set_recorded(queried, cleared_mask(os.process_affinity, exclusion_mask));
            if os.set_ok {
                (with_release_recorded(set), Ok(()))
            } else {
                (with_release_recorded(set), Err(AffinityError::AffinityApplyFailed(os.last_error)))
            }
        }
    }
}

/// Guard B stated alone: when the exclusion would leave no eligible
/// processor, the invocation fails with
/// [`AffinityError::NoEligibleProcessors`] and the affinity mask of the
/// process is left unchanged.
pub proof fn lemma_empty_exclusion_refused(os: OsState, exclusion_mask: u64)
    requires
        handle_valid(os.next_handle),
        os.query_ok,
        !already_adjusted(os.process_affinity),
        cleared_mask(os.process_affinity, exclusion_mask) == 0,
    ensures
        spec_apply_exclusion(os, exclusion_mask).1 == Err::<(), AffinityError>(
            AffinityError::NoEligibleProcessors(os.last_error),
        ),
        spec_apply_exclusion(os, exclusion_mask).0.process_affinity == os.process_affinity,
{
}

/// Safety of the adjustment: an invocation never leaves the process with a
/// zero affinity mask.  The mask either stays what it was, or becomes the
/// narrowed mask, which guard B has found to be non-zero.
pub proof fn lemma_never_zero(os: OsState, exclusion_mask: u64)
    requires
        os.process_affinity != 0,
    ensures
        spec_apply_exclusion(os, exclusion_mask).0.process_affinity != 0,
{
}

/// The handle invariant: an invocation that acquires a valid handle
/// releases it exactly once, on the success path and on every error path
/// alike; an acquisition that yields an invalid sentinel never issues a
/// release.
pub proof fn lemma_handle_released_once(os: OsState, exclusion_mask: u64)
    requires
        os.counters_ok(),
    ensures
        handle_valid(os.next_handle) ==> spec_apply_exclusion(os, exclusion_mask).0.release_calls
            == os.release_calls + 1,
        !handle_valid(os.next_handle) ==> spec_apply_exclusion(os, exclusion_mask).0.release_calls
            == os.release_calls,
{
}

/// Idempotence of the adjustment, with no intervening external change:
/// when the exclusion covers processor 0, a first successful invocation
/// performs the one mutation, and a second invocation finds processor 0
/// off, succeeds through guard A, and issues no further mutation.
pub proof fn lemma_apply_exclusion_idempotent(os: OsState, exclusion_mask: u64)
    requires
        os.counters_ok(),
        handle_valid(os.next_handle),
        os.query_ok,
        os.set_ok,
        !already_adjusted(os.process_affinity),
        exclusion_mask & 1 == 1,
        cleared_mask(os.process_affinity, exclusion_mask) != 0,
    ensures
        ({
            let first = spec_apply_exclusion(os, exclusion_mask);
            let second = spec_apply_exclusion(first.0, exclusion_mask);
            &&& first.1 == Ok::<(), AffinityError>(())
            &&& first.0.set_calls == os.set_calls + 1
            &&& first.0.process_affinity == cleared_mask(os.process_affinity, exclusion_mask)
            &&& already_adjusted(first.0.process_affinity)
            &&& second.1 == Ok::<(), AffinityError>(())
            &&& second.0.set_calls == first.0.set_calls
            &&& second.0.process_affinity == first.0.process_affinity
        }),
{
    let p = os.process_affinity;
    assert((p & !exclusion_mask) & 1 == 0) by (bit_vector)
        requires
            exclusion_mask & 1 == 1,
    ;
}

/// Narrows the affinity mask of the process by `exclusion_mask`.
///
/// Acquires a process handle (released on every path iff valid), queries the
/// current masks, applies the two guard conditions, and issues the mutation
/// only for a non-zero narrowed mask.  The whole effect on the modelled
/// system equals [`spec_apply_exclusion`]; in particular an error leaves the
/// process mask untouched, and the mask is never changed to zero.
pub fn apply_exclusion(os: &mut OsState, exclusion_mask: u64) -> (r: Result<(), AffinityError>)
    requires
        old(os).counters_ok(),
    ensures
        *final(os) == spec_apply_exclusion(*old(os), exclusion_mask).0,
        r == spec_apply_exclusion(*old(os), exclusion_mask).1,
        r is Err ==> final(os).process_affinity == old(os).process_affinity,
        final(os).process_affinity == old(os).process_affinity || final(os).process_affinity != 0,
{
    let handle = os.open_process();
    let guard = OwnedHandle::new(handle);
    if !guard.is_valid() {
        let code = os.last_error;
        guard.release(os);
        return Err(AffinityError::HandleAcquisitionFailed(code));
    }
    match os.query_affinity(&guard) {
        None => {
            let code = os.last_error;
            guard.release(os);
            Err(AffinityError::AffinityQueryFailed(code))
        },
        Some((process_mask, _system_mask)) => {
            match plan_exclusion(process_mask, exclusion_mask, os.last_error) {
                Ok(AffinityPlan::AlreadyAdjusted) => {
                    guard.release(os);
                    Ok(())
                },
                Ok(AffinityPlan::SetMask(new_mask)) => {
                    let applied = os.set_affinity(&guard, new_mask);
                    let code = os.last_error;
                    guard.release(os);
                    if applied {
                        Ok(())
                    } else {
                        Err(AffinityError::AffinityApplyFailed(code))
                    }
                },
                Err(refusal) => {
                    guard.release(os);
                    Err(refusal)
                },
            }
        },
    }
}

} // verus!
