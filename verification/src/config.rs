//! Configuration and the decisions of the module-load entry point.

use vstd::prelude::*;
use crate::controller::AffinityError;
use crate::mask::get_exclude_mask;
use crate::mask::indices_in_range;
use crate::mask::mask_of;

verus! {

/// The reason code the host's loading protocol passes when the module is
/// attached to a process.
pub const DLL_PROCESS_ATTACH: u32 = 1;

/// The reason code passed when the module is detached again.
pub const DLL_PROCESS_DETACH: u32 = 0;

/// The loaded configuration: how long to wait before adjusting the process,
/// and which logical processors to exclude.  Immutable after load.
#[derive(Debug)]
pub struct Config {
    /// The configured delay, in nanoseconds.
    pub delay_nanos: u64,
    /// The processor indices to exclude, 0-based.
    pub exclude: Vec<u64>,
}

impl Config {
    /// Every configured index names one of the 64 bits of an affinity mask.
    pub open spec fn wf(self) -> bool {
        indices_in_range(self.exclude@)
    }
}

/// The one deferred unit of work the bootstrap schedules: sleep for the
/// delay, then narrow the process affinity by the exclusion mask.
#[derive(Clone, Copy, Debug, PartialEq, Eq, Structural)]
pub struct ScheduledTask {
    /// How long the unit of work sleeps before acting, in nanoseconds.
    pub delay_nanos: u64,
    /// The mask it then applies: bit `i` set iff processor `i` is excluded.
    pub exclusion_mask: u64,
}

/// Turns the outcome of the configuration load into the one deferred task,
/// or into the fatal [`AffinityError::ConfigLoadFailed`] when nothing was
/// loaded — in which case no task is ever scheduled.
pub fn plan_bootstrap(loaded: Option<Config>) -> (r: Result<ScheduledTask, AffinityError>)
    requires
        loaded matches Some(config) ==> config.wf(),
    ensures
        loaded matches Some(config) ==> r == Ok::<ScheduledTask, AffinityError>(
            ScheduledTask {
                delay_nanos: config.delay_nanos,
                exclusion_mask: mask_of(config.exclude@),
            },
        ),
        loaded is None ==> r == Err::<ScheduledTask, AffinityError>(
            AffinityError::ConfigLoadFailed,
        ),
{
    match loaded {
        Some(config) => {
            let delay_nanos = config.delay_nanos;
            let exclusion_mask = get_exclude_mask(config.exclude);
            Ok(ScheduledTask { delay_nanos, exclusion_mask })
        },
        None => Err(AffinityError::ConfigLoadFailed),
    }
}

/// The status the module-load protocol expects back, promptly and whatever
/// becomes of the deferred work: success for the attach and detach reasons,
/// failure for any other.
pub fn load_status(reason: u32) -> (r: i32)
    ensures
        (reason == DLL_PROCESS_ATTACH || reason == DLL_PROCESS_DETACH) ==> r == 1,
        !(reason == DLL_PROCESS_ATTACH || reason == DLL_PROCESS_DETACH) ==> r == 0,
{
    match reason {
        DLL_PROCESS_ATTACH => 1,
        DLL_PROCESS_DETACH => 1,
        _ => 0,
    }
}

} // verus!
