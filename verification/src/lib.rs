//! Delayed process-affinity override engine.
//!
//! Given a configured delay and a set of logical processors to exclude, the
//! library computes an exclusion bitmask and narrows the affinity mask of the
//! running process, so the scheduler stops placing its threads on the excluded
//! processors.  The operating system's process and affinity calls are modelled
//! explicitly as a state value, so every guard of the algorithm is verified;
//! a thin unverified shell performs the real calls.

pub mod config;
pub mod controller;
pub mod handle;
pub mod mask;
pub mod os;

pub use config::Config;
pub use config::ScheduledTask;
pub use config::load_status;
pub use config::plan_bootstrap;
pub use controller::AffinityError;
pub use controller::AffinityPlan;
pub use controller::apply_exclusion;
pub use controller::plan_exclusion;
pub use handle::HANDLE;
pub use handle::OwnedHandle;
pub use mask::get_exclude_mask;
pub use mask::mask_of;
pub use os::OsState;
