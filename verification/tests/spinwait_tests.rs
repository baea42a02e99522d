use spinwait::{SpinAction, SpinWait};
use std::cell::Cell;

#[test]
fn test_spin_once_increments_count() {
    let mut spinner = SpinWait::new();
    assert_eq!(spinner.count(), 0);
    spinner.spin_once();
    assert_eq!(spinner.count(), 1);
}

#[test]
fn test_reset_clears_count() {
    let mut spinner = SpinWait::new();
    spinner.spin_once();
    spinner.spin_once();
    assert_eq!(spinner.count(), 2);
    spinner.reset();
    assert_eq!(spinner.count(), 0);
}

#[test]
fn test_next_spin_will_yield() {
    let mut spinner = SpinWait::new();
    let mut i: u32 = 0;
    while i < 10 {
        assert!(!spinner.next_spin_will_yield());
        spinner.spin_once();
        i += 1;
    }
    assert!(spinner.next_spin_will_yield());
}

#[test]
fn test_fresh_spinner_reports_zero_and_no_yield() {
    let spinner = SpinWait::new();
    assert_eq!(spinner.count(), 0);
    assert!(!spinner.next_spin_will_yield());

    let custom = SpinWait::with_threshold(5);
    assert_eq!(custom.count(), 0);
    assert!(!custom.next_spin_will_yield());
}

#[test]
fn test_default_matches_new() {
    let mut spinner = SpinWait::default();
    assert_eq!(spinner.count(), 0);
    assert!(!spinner.next_spin_will_yield());
    let mut i: u32 = 0;
    while i < 10 {
        assert!(!spinner.next_spin_will_yield());
        spinner.spin_once_with_cpus(4);
        i += 1;
    }
    assert!(spinner.next_spin_will_yield());
}

#[test]
fn test_reset_after_many_steps() {
    let mut spinner = SpinWait::with_threshold(2);
    let mut i: u32 = 0;
    while i < 25 {
        spinner.spin_once_with_cpus(4);
        i += 1;
    }
    assert_eq!(spinner.count(), 25);
    assert!(spinner.next_spin_will_yield());
    spinner.reset();
    assert_eq!(spinner.count(), 0);
    assert!(!spinner.next_spin_will_yield());
}

#[test]
fn test_single_processor_always_yields() {
    let mut spinner = SpinWait::new();
    let mut i: u32 = 0;
    while i < 20 {
        assert_eq!(spinner.spin_once_with_cpus(1), SpinAction::Yield);
        i += 1;
    }
}

#[test]
fn test_multi_processor_tiers() {
    let mut spinner = SpinWait::new();
    let mut i: u32 = 0;
    while i < 3 {
        assert_eq!(spinner.spin_once_with_cpus(8), SpinAction::Spin);
        i += 1;
    }
    let mut prev: u64 = 0;
    let mut c: u32 = 4;
    while c < 10 {
        match spinner.spin_once_with_cpus(8) {
            SpinAction::Sleep(nanos) => {
                assert_eq!(nanos, 1u64 << c);
                assert!(nanos >= prev);
                prev = nanos;
            }
            other => panic!("expected a sleep at iteration {}, got {:?}", c, other),
        }
        c += 1;
    }
    assert_eq!(spinner.spin_once_with_cpus(8), SpinAction::Yield);
}

#[test]
fn test_threshold_boundary() {
    let mut spinner = SpinWait::new();
    let mut i: u32 = 0;
    while i < 9 {
        spinner.spin_once_with_cpus(4);
        i += 1;
    }
    assert!(!spinner.next_spin_will_yield());
    let action = spinner.spin_once_with_cpus(4);
    assert_eq!(spinner.count(), 10);
    assert!(spinner.next_spin_will_yield());
    assert_eq!(action, SpinAction::Yield);
}

#[test]
fn test_zero_threshold_first_step_yields() {
    let mut spinner = SpinWait::with_threshold(0);
    assert!(spinner.next_spin_will_yield());
    assert_eq!(spinner.spin_once_with_cpus(8), SpinAction::Yield);
    assert_eq!(spinner.count(), 1);

    let mut on_host = SpinWait::with_threshold(0);
    assert_eq!(on_host.spin_once(), SpinAction::Yield);
    assert_eq!(on_host.count(), 1);
}

#[test]
fn test_small_threshold_yields_from_threshold_on() {
    let mut spinner = SpinWait::with_threshold(3);
    assert_eq!(spinner.spin_once_with_cpus(8), SpinAction::Spin);
    assert_eq!(spinner.spin_once_with_cpus(8), SpinAction::Spin);
    assert_eq!(spinner.spin_once_with_cpus(8), SpinAction::Yield);
    assert_eq!(spinner.spin_once_with_cpus(8), SpinAction::Yield);
}

#[test]
fn test_backoff_sleep_is_clamped() {
    let mut spinner = SpinWait::with_threshold(100);
    let mut i: u32 = 0;
    while i < 50 {
        let action = spinner.spin_once_with_cpus(4);
        if spinner.count() >= 30 {
            assert_eq!(action, SpinAction::Sleep(1u64 << 30));
        }
        i += 1;
    }
}

#[test]
fn test_first_step_on_host_never_sleeps() {
    let mut spinner = SpinWait::new();
    let action = spinner.spin_once();
    assert!(matches!(action, SpinAction::Spin | SpinAction::Yield));
    assert_eq!(spinner.count(), 1);
}

#[test]
fn test_poll_once_stops_exactly_when_condition_turns_true() {
    let calls = Cell::new(0u32);
    let condition = || {
        calls.set(calls.get() + 1);
        calls.get() >= 5
    };
    let mut spinner = SpinWait::new();
    let mut rounds: u32 = 0;
    while spinner.poll_once(&condition).is_some() {
        rounds += 1;
        assert!(rounds < 100);
    }
    assert_eq!(calls.get(), 5);
    assert_eq!(rounds, 4);
    assert_eq!(spinner.count(), 4);

    let before = spinner.count();
    assert!(spinner.poll_once(&condition).is_none());
    assert_eq!(spinner.count(), before);
}

#[test]
fn test_poll_once_reports_the_step_action() {
    let condition = || false;
    let mut spinner = SpinWait::with_threshold(0);
    match spinner.poll_once(&condition) {
        Some(action) => assert_eq!(action, SpinAction::Yield),
        None => panic!("the condition is false, a step was due"),
    }
    assert_eq!(spinner.count(), 1);
}
