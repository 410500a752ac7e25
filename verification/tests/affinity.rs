use affinity_override::AffinityError;
use affinity_override::AffinityPlan;
use affinity_override::Config;
use affinity_override::HANDLE;
use affinity_override::OsState;
use affinity_override::OwnedHandle;
use affinity_override::ScheduledTask;
use affinity_override::apply_exclusion;
use affinity_override::get_exclude_mask;
use affinity_override::load_status;
use affinity_override::plan_bootstrap;
use affinity_override::plan_exclusion;

/// A healthy system: a valid handle on offer, both affinity calls willing,
/// and the given process mask.
fn healthy_os(process_affinity: u64) -> OsState {
    OsState {
        process_affinity,
        system_affinity: 0b1111,
        next_handle: 4,
        last_error: 0xA1,
        query_ok: true,
        set_ok: true,
        open_calls: 0,
        query_calls: 0,
        set_calls: 0,
        release_calls: 0,
    }
}

#[test]
fn empty_exclusion_yields_zero_mask() {
    assert_eq!(get_exclude_mask(vec![]), 0);
}

#[test]
fn mask_sets_one_bit_per_index() {
    assert_eq!(get_exclude_mask(vec![0]), 0b0001);
    assert_eq!(get_exclude_mask(vec![1, 2]), 0b0110);
    assert_eq!(get_exclude_mask(vec![0, 1, 2]), 0b0111);
    assert_eq!(get_exclude_mask(vec![5]), 32);
    assert_eq!(get_exclude_mask(vec![63]), 1u64 << 63);
}

#[test]
fn mask_independent_of_order_and_repetition() {
    assert_eq!(get_exclude_mask(vec![2, 0, 1]), get_exclude_mask(vec![0, 1, 2]));
    assert_eq!(get_exclude_mask(vec![1, 1, 1]), 0b0010);
}

#[test]
fn sentinel_handles_are_invalid() {
    assert!(!HANDLE(0).is_valid());
    assert!(!HANDLE(u64::MAX).is_valid());
    assert!(HANDLE(4).is_valid());
}

#[test]
fn invalid_handle_never_released() {
    let mut os = healthy_os(0b0111);
    OwnedHandle::new(HANDLE(0)).release(&mut os);
    OwnedHandle::new(HANDLE(u64::MAX)).release(&mut os);
    assert_eq!(os.release_calls, 0);
    OwnedHandle::new(HANDLE(4)).release(&mut os);
    assert_eq!(os.release_calls, 1);
}

#[test]
fn owned_handle_reports_its_value() {
    let guard = OwnedHandle::new(HANDLE(4));
    assert_eq!(guard.get(), HANDLE(4));
    assert!(guard.is_valid());
}

#[test]
fn exclude_first_processor() {
    let config = Config { delay_nanos: 0, exclude: vec![0] };
    let task = plan_bootstrap(Some(config)).unwrap();
    assert_eq!(task.exclusion_mask, 0b0001);
    assert_eq!(task.delay_nanos, 0);

    let mut os = healthy_os(0b0111);
    assert_eq!(apply_exclusion(&mut os, task.exclusion_mask), Ok(()));
    assert_eq!(os.process_affinity, 0b0110);
    assert_eq!(os.set_calls, 1);
    assert_eq!(os.release_calls, 1);
}

#[test]
fn exclude_middle_processors() {
    let config = Config { delay_nanos: 0, exclude: vec![1, 2] };
    let task = plan_bootstrap(Some(config)).unwrap();
    assert_eq!(task.exclusion_mask, 0b0110);

    let mut os = healthy_os(0b0111);
    assert_eq!(apply_exclusion(&mut os, task.exclusion_mask), Ok(()));
    assert_eq!(os.process_affinity, 0b0001);
}

#[test]
fn exclusion_of_every_processor_refused() {
    let config = Config { delay_nanos: 0, exclude: vec![0, 1, 2] };
    let task = plan_bootstrap(Some(config)).unwrap();
    assert_eq!(task.exclusion_mask, 0b0111);

    let mut os = healthy_os(0b0111);
    assert_eq!(
        apply_exclusion(&mut os, task.exclusion_mask),
        Err(AffinityError::NoEligibleProcessors(0xA1)),
    );
    assert_eq!(os.process_affinity, 0b0111);
    assert_eq!(os.set_calls, 0);
    assert_eq!(os.release_calls, 1);
}

#[test]
fn already_adjusted_process_left_alone() {
    let mut os = healthy_os(0b0110);
    assert_eq!(apply_exclusion(&mut os, 0b0001), Ok(()));
    assert_eq!(os.process_affinity, 0b0110);
    assert_eq!(os.set_calls, 0);
    assert_eq!(os.query_calls, 1);
    assert_eq!(os.release_calls, 1);
}

#[test]
fn second_invocation_is_a_noop() {
    let mut os = healthy_os(0b0111);
    assert_eq!(apply_exclusion(&mut os, 0b0001), Ok(()));
    assert_eq!(os.process_affinity, 0b0110);
    assert_eq!(os.set_calls, 1);
    assert_eq!(apply_exclusion(&mut os, 0b0001), Ok(()));
    assert_eq!(os.process_affinity, 0b0110);
    assert_eq!(os.set_calls, 1);
}

#[test]
fn handle_acquisition_failure_reported() {
    let mut os = healthy_os(0b0111);
    os.next_handle = 0;
    assert_eq!(
        apply_exclusion(&mut os, 0b0001),
        Err(AffinityError::HandleAcquisitionFailed(0xA1)),
    );
    assert_eq!(os.process_affinity, 0b0111);
    assert_eq!(os.query_calls, 0);
    assert_eq!(os.release_calls, 0);

    let mut os = healthy_os(0b0111);
    os.next_handle = u64::MAX;
    assert_eq!(
        apply_exclusion(&mut os, 0b0001),
        Err(AffinityError::HandleAcquisitionFailed(0xA1)),
    );
    assert_eq!(os.release_calls, 0);
}

#[test]
fn affinity_query_failure_reported() {
    let mut os = healthy_os(0b0111);
    os.query_ok = false;
    assert_eq!(apply_exclusion(&mut os, 0b0001), Err(AffinityError::AffinityQueryFailed(0xA1)));
    assert_eq!(os.process_affinity, 0b0111);
    assert_eq!(os.set_calls, 0);
    assert_eq!(os.release_calls, 1);
}

#[test]
fn affinity_apply_failure_reported() {
    let mut os = healthy_os(0b0111);
    os.set_ok = false;
    assert_eq!(apply_exclusion(&mut os, 0b0001), Err(AffinityError::AffinityApplyFailed(0xA1)));
    assert_eq!(os.process_affinity, 0b0111);
    assert_eq!(os.set_calls, 1);
    assert_eq!(os.release_calls, 1);
}

#[test]
fn failed_config_load_schedules_nothing() {
    let os = healthy_os(0b0111);
    assert_eq!(plan_bootstrap(None), Err(AffinityError::ConfigLoadFailed));
    assert_eq!(os.open_calls, 0);
    assert_eq!(os.query_calls, 0);
    assert_eq!(os.set_calls, 0);
    assert_eq!(os.release_calls, 0);
}

#[test]
fn scheduled_task_carries_the_delay() {
    let config = Config { delay_nanos: 2_000_000_000, exclude: vec![0] };
    assert_eq!(
        plan_bootstrap(Some(config)),
        Ok(ScheduledTask { delay_nanos: 2_000_000_000, exclusion_mask: 0b0001 }),
    );
}

#[test]
fn plan_follows_the_two_guards() {
    assert_eq!(plan_exclusion(0b0111, 0b0001, 9), Ok(AffinityPlan::SetMask(0b0110)));
    assert_eq!(plan_exclusion(0b0110, 0b0111, 9), Ok(AffinityPlan::AlreadyAdjusted));
    assert_eq!(plan_exclusion(0b0001, 0b0001, 9), Err(AffinityError::NoEligibleProcessors(9)));
}

#[test]
fn load_status_answers_the_protocol() {
    assert_eq!(load_status(1), 1);
    assert_eq!(load_status(0), 1);
    assert_eq!(load_status(2), 0);
    assert_eq!(load_status(u32::MAX), 0);
}
