use jitoliq::pacing::{
    classify_method, jito_min_interval_ms_for_method, override_variable, IntervalOverrides,
    MethodClass, PacingGate,
};

fn no_overrides() -> IntervalOverrides {
    IntervalOverrides { submission: None, tip_accounts: None, other: None }
}

#[test]
fn default_intervals() {
    let o = no_overrides();
    assert_eq!(jito_min_interval_ms_for_method("sendBundle", &o), 0);
    assert_eq!(jito_min_interval_ms_for_method("getBundleStatuses", &o), 0);
    assert_eq!(jito_min_interval_ms_for_method("getTipAccounts", &o), 1200);
    assert_eq!(jito_min_interval_ms_for_method("tipFloor", &o), 250);
    assert_eq!(jito_min_interval_ms_for_method("", &o), 250);
}

#[test]
fn configured_intervals_override_the_defaults() {
    let o = IntervalOverrides {
        submission: Some("15".to_string()),
        tip_accounts: Some("0".to_string()),
        other: Some("1000".to_string()),
    };
    assert_eq!(jito_min_interval_ms_for_method("sendBundle", &o), 15);
    assert_eq!(jito_min_interval_ms_for_method("getBundleStatuses", &o), 15);
    assert_eq!(jito_min_interval_ms_for_method("getTipAccounts", &o), 0);
    assert_eq!(jito_min_interval_ms_for_method("anything", &o), 1000);
}

#[test]
fn settings_that_are_no_numbers_count_as_not_set() {
    let o = IntervalOverrides {
        submission: Some("fast".to_string()),
        tip_accounts: Some("-1".to_string()),
        other: Some(" 10".to_string()),
    };
    assert_eq!(jito_min_interval_ms_for_method("sendBundle", &o), 0);
    assert_eq!(jito_min_interval_ms_for_method("getTipAccounts", &o), 1200);
    assert_eq!(jito_min_interval_ms_for_method("tipFloor", &o), 250);
}

#[test]
fn methods_fall_into_three_groups() {
    assert_eq!(classify_method("sendBundle"), MethodClass::Submission);
    assert_eq!(classify_method("getBundleStatuses"), MethodClass::Submission);
    assert_eq!(classify_method("getTipAccounts"), MethodClass::TipAccounts);
    assert_eq!(classify_method("getTipAccount"), MethodClass::Other);
    assert_eq!(classify_method("SendBundle"), MethodClass::Other);
}

#[test]
fn each_group_has_its_environment_variable() {
    assert_eq!(override_variable(MethodClass::Submission), "JITO_SEND_BUNDLE_MIN_INTERVAL_MS");
    assert_eq!(override_variable(MethodClass::TipAccounts), "JITO_TIP_ACCOUNTS_MIN_INTERVAL_MS");
    assert_eq!(override_variable(MethodClass::Other), "JITO_OTHER_MIN_INTERVAL_MS");
}

#[test]
fn new_pacer_has_idled_for_ten_seconds() {
    assert_eq!(PacingGate::new(60_000).last_request_ms(), 50_000);
    assert_eq!(PacingGate::new(10_000).last_request_ms(), 0);
    assert_eq!(PacingGate::new(3).last_request_ms(), 0);
    assert_eq!(PacingGate::new(60_000).throttle(60_000, 1200), 0);
    assert_eq!(PacingGate::new(60_000).throttle(60_000, 10_000), 0);
    assert_eq!(PacingGate::new(60_000).throttle(60_000, 10_001), 1);
}

#[test]
fn wait_is_what_is_left_of_the_interval() {
    let mut pacer = PacingGate::new(100_000);
    pacer.record(100_000, 1200);
    assert_eq!(pacer.throttle(100_000, 1200), 1200);
    assert_eq!(pacer.throttle(100_500, 1200), 700);
    assert_eq!(pacer.throttle(101_199, 1200), 1);
    assert_eq!(pacer.throttle(101_200, 1200), 0);
    assert_eq!(pacer.throttle(500_000, 1200), 0);
    assert_eq!(pacer.throttle(100_500, 250), 0);
}

#[test]
fn interval_of_zero_neither_waits_nor_counts() {
    let mut pacer = PacingGate::new(100_000);
    pacer.record(100_000, 250);
    assert_eq!(pacer.throttle(100_001, 0), 0);
    pacer.record(100_001, 0);
    assert_eq!(pacer.last_request_ms(), 100_000);
    assert_eq!(pacer.throttle(100_100, 250), 150);
}

#[test]
fn two_requests_are_at_least_the_interval_apart() {
    let interval = 250;
    let mut pacer = PacingGate::new(1_000_000);
    let mut now = 1_000_000u64;
    let mut sent: Vec<u64> = Vec::new();
    for work in [0u64, 10, 249, 250, 251, 1000, 3, 0, 0] {
        now += work;
        let wait = pacer.throttle(now, interval);
        now += wait;
        pacer.record(now, interval);
        sent.push(now);
    }
    for pair in sent.windows(2) {
        assert!(pair[1] - pair[0] >= interval, "{:?}", pair);
    }
    assert_eq!(sent[1] - sent[0], 250);
    assert_eq!(sent[5] - sent[4], 1000);
}

#[test]
fn clock_behind_the_last_request_waits_for_the_rest_too() {
    let mut pacer = PacingGate::new(100_000);
    pacer.record(100_000, 250);
    assert_eq!(pacer.throttle(99_900, 250), 350);
    pacer.record(u64::MAX, 250);
    assert_eq!(pacer.throttle(0, u64::MAX), u64::MAX);
}
