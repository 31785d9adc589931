use kworker_watchdog::engine::{
    act_on_match, workaround, WorkaroundError, BUSY_POLLING_MS, EXPECTED_RECOVERY_TIME_MS,
};
use kworker_watchdog::mock::MockSystem;
use kworker_watchdog::process::{KworkerMatcher, ProcInfo};

fn matcher(pattern: &str) -> KworkerMatcher {
    KworkerMatcher { process_glob: pattern.to_string() }
}

#[test]
fn test_monitor_and_sync_no_kworker() {
    let mut system = MockSystem::default();
    let threshold_ms: i64 = 30 * 1000;

    let sleep_ms = workaround(&mut system, &matcher("kworker/*"), threshold_ms).unwrap();
    assert_eq!(sleep_ms, 0);
    assert_eq!(system.sync_calls, 0);
}

#[test]
fn test_monitor_and_sync_kworker_below_threshold() {
    let now = chrono::Local::now().timestamp_millis();
    let proc = ProcInfo {
        uid: 0,
        comm: "kworker/0:1".to_string(),
        starttime: now - 10 * 1000,
    };
    let mut system = MockSystem {
        kworker: Some(proc),
        now,
        ..MockSystem::default()
    };
    let threshold_ms: i64 = 30 * 1000;

    let sleep_ms = workaround(&mut system, &matcher("kworker/*"), threshold_ms).unwrap();
    assert_eq!(sleep_ms, BUSY_POLLING_MS);
    assert_eq!(system.sync_calls, 0);
}

#[test]
fn test_monitor_and_sync_kworker_above_threshold() {
    let now = chrono::Local::now().timestamp_millis();
    let proc = ProcInfo {
        uid: 0,
        comm: "kworker/0:1".to_string(),
        starttime: now - 40 * 1000,
    };
    let mut system = MockSystem {
        kworker: Some(proc),
        now,
        ..MockSystem::default()
    };
    let threshold_ms: i64 = 30 * 1000;

    let sleep_ms = workaround(&mut system, &matcher("kworker/*"), threshold_ms).unwrap();
    assert_eq!(sleep_ms, EXPECTED_RECOVERY_TIME_MS);
    assert_eq!(system.sync_calls, 1);
}

#[test]
fn test_monitor_and_sync_wait_for_kworker_error() {
    let mut system = MockSystem {
        wait_result: Err("test error".to_string()),
        ..MockSystem::default()
    };
    let threshold_ms: i64 = 30 * 1000;

    let result = workaround(&mut system, &matcher("kworker/*"), threshold_ms);
    assert!(result.is_err());
    assert_eq!(system.sync_calls, 0);
}

#[test]
fn wait_error_carries_the_message() {
    let mut system = MockSystem {
        wait_result: Err("subscription closed".to_string()),
        ..MockSystem::default()
    };

    let result = workaround(&mut system, &matcher("kworker/*"), 30 * 1000);
    match result {
        Err(WorkaroundError::Wait(e)) => assert_eq!(e.message, "subscription closed"),
        _ => panic!("expected a wait error"),
    }
}

#[test]
fn scan_error_is_surfaced_and_never_syncs() {
    let now = chrono::Local::now().timestamp_millis();
    let proc = ProcInfo {
        uid: 0,
        comm: "kworker/0:1".to_string(),
        starttime: now - 40 * 1000,
    };
    let mut system = MockSystem {
        kworker: Some(proc),
        now,
        scan_result: Err("process table unreadable".to_string()),
        ..MockSystem::default()
    };

    let result = workaround(&mut system, &matcher("kworker/*"), 30 * 1000);
    match result {
        Err(WorkaroundError::Scan(e)) => assert_eq!(e.message, "process table unreadable"),
        _ => panic!("expected a scan error"),
    }
    assert_eq!(system.sync_calls, 0);
}

#[test]
fn age_exactly_at_threshold_does_not_sync() {
    let now: i64 = 1_000_000_000_000;
    let proc = ProcInfo {
        uid: 0,
        comm: "kworker/0:1".to_string(),
        starttime: now - 30 * 1000,
    };
    let mut system = MockSystem {
        kworker: Some(proc),
        now,
        ..MockSystem::default()
    };

    let sleep_ms = workaround(&mut system, &matcher("kworker/*"), 30 * 1000).unwrap();
    assert_eq!(sleep_ms, BUSY_POLLING_MS);
    assert_eq!(system.sync_calls, 0);
}

#[test]
fn non_matching_process_takes_the_no_match_path() {
    let now: i64 = 1_000_000_000_000;
    let proc = ProcInfo {
        uid: 0,
        comm: "bash".to_string(),
        starttime: now - 40 * 1000,
    };
    let mut system = MockSystem {
        kworker: Some(proc),
        now,
        ..MockSystem::default()
    };

    let sleep_ms = workaround(&mut system, &matcher("kworker/*"), 30 * 1000).unwrap();
    assert_eq!(sleep_ms, 0);
    assert_eq!(system.sync_calls, 0);
}

#[test]
fn repeated_cycles_on_unchanged_state_agree() {
    let now: i64 = 1_000_000_000_000;
    let proc = ProcInfo {
        uid: 0,
        comm: "kworker/0:1".to_string(),
        starttime: now - 10 * 1000,
    };
    let mut system = MockSystem {
        kworker: Some(proc),
        now,
        ..MockSystem::default()
    };

    let first = workaround(&mut system, &matcher("kworker/*"), 30 * 1000).unwrap();
    let second = workaround(&mut system, &matcher("kworker/*"), 30 * 1000).unwrap();
    let third = workaround(&mut system, &matcher("kworker/*"), 30 * 1000).unwrap();
    assert_eq!(first, BUSY_POLLING_MS);
    assert_eq!(second, first);
    assert_eq!(third, first);
    assert_eq!(system.sync_calls, 0);
}

#[test]
fn act_on_match_below_threshold_busy_polls() {
    let now: i64 = 1_000_000_000_000;
    let proc = ProcInfo {
        uid: 0,
        comm: "kworker/0:1".to_string(),
        starttime: now - 10 * 1000,
    };
    let mut system = MockSystem {
        now,
        ..MockSystem::default()
    };

    let delay = act_on_match(&mut system, &proc, 30 * 1000);
    assert_eq!(delay, BUSY_POLLING_MS);
    assert_eq!(system.sync_calls, 0);
}

#[test]
fn act_on_match_above_threshold_syncs_once() {
    let now: i64 = 1_000_000_000_000;
    let proc = ProcInfo {
        uid: 0,
        comm: "kworker/0:1".to_string(),
        starttime: now - 40 * 1000,
    };
    let mut system = MockSystem {
        now,
        ..MockSystem::default()
    };

    let delay = act_on_match(&mut system, &proc, 30 * 1000);
    assert_eq!(delay, EXPECTED_RECOVERY_TIME_MS);
    assert_eq!(system.sync_calls, 1);
}
