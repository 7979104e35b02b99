use ups_beep_decoder::classify::{
    close_enough, get_status_from_beep_durations, table_row, BEEP_BOUNCE_MAX_DURATION_MS,
    INTER_BEEP_BOUNCE_MAX_DURATION_MS, TABLE_LEN,
};
use ups_beep_decoder::status::Status;

#[test]
fn round_trip_all_rows() {
    // Every reference-table row's exact target pair classifies back to that
    // row's own status.
    let mut i = 0;
    while i < TABLE_LEN {
        let (status, beep, gap) = table_row(i);
        assert_eq!(get_status_from_beep_durations(beep, gap), status);
        i += 1;
    }
}

#[test]
fn classify_is_deterministic() {
    let pairs = [
        (250u64, 60000u64),
        (250, 1000),
        (2000, 13000),
        (0, 3000),
        (3000, 0),
        (999, 60000),
        (123456, 654321),
    ];
    for (beep, gap) in pairs {
        let first = get_status_from_beep_durations(beep, gap);
        let second = get_status_from_beep_durations(beep, gap);
        assert_eq!(first, second);
    }
}

#[test]
fn scenario_on_battery_pair() {
    assert_eq!(get_status_from_beep_durations(250, 60000), Status::OnBattery);
    assert_eq!(get_status_from_beep_durations(240, 58000), Status::OnBattery);
    assert_eq!(get_status_from_beep_durations(262, 62900), Status::OnBattery);
}

#[test]
fn scenario_low_on_battery_pair() {
    assert_eq!(get_status_from_beep_durations(250, 1000), Status::LowOnBattery);
    assert_eq!(get_status_from_beep_durations(245, 1040), Status::LowOnBattery);
}

#[test]
fn scenario_advance_low_runtime_pair() {
    assert_eq!(
        get_status_from_beep_durations(2000, 13000),
        Status::AdvanceLowRuntimeOnMains
    );
    assert_eq!(
        get_status_from_beep_durations(1910, 13600),
        Status::AdvanceLowRuntimeOnMains
    );
}

#[test]
fn scenario_unmatched_beep_is_unknown() {
    // 999 ms is not within 5% of any target beep duration, nor under the
    // absolute tolerance of a zero target.
    assert_eq!(get_status_from_beep_durations(999, 60000), Status::Unknown);
    assert_eq!(get_status_from_beep_durations(999, 999), Status::Unknown);
}

#[test]
fn zero_target_rows_use_absolute_tolerance() {
    // OnMains expects (0, 3000): a beep under 50 ms counts as zero.
    assert_eq!(get_status_from_beep_durations(0, 3000), Status::OnMains);
    assert_eq!(get_status_from_beep_durations(30, 2900), Status::OnMains);
    // Over-temperature-or-internal-error expects (3000, 0): a gap under
    // 300 ms counts as zero.
    assert_eq!(
        get_status_from_beep_durations(3000, 0),
        Status::OverTemperatureOnBatteryOrInternalError
    );
    assert_eq!(
        get_status_from_beep_durations(3100, 200),
        Status::OverTemperatureOnBatteryOrInternalError
    );
}

#[test]
fn close_enough_relative_margin_is_strict() {
    // 5% of 250 is 12.5: a difference of 12 passes, 13 does not.
    assert!(close_enough(262, 250, BEEP_BOUNCE_MAX_DURATION_MS));
    assert!(!close_enough(263, 250, BEEP_BOUNCE_MAX_DURATION_MS));
    assert!(close_enough(238, 250, BEEP_BOUNCE_MAX_DURATION_MS));
    assert!(!close_enough(237, 250, BEEP_BOUNCE_MAX_DURATION_MS));
}

#[test]
fn close_enough_zero_target_is_absolute_and_strict() {
    assert!(close_enough(0, 0, BEEP_BOUNCE_MAX_DURATION_MS));
    assert!(close_enough(49, 0, BEEP_BOUNCE_MAX_DURATION_MS));
    assert!(!close_enough(50, 0, BEEP_BOUNCE_MAX_DURATION_MS));
    assert!(close_enough(299, 0, INTER_BEEP_BOUNCE_MAX_DURATION_MS));
    assert!(!close_enough(300, 0, INTER_BEEP_BOUNCE_MAX_DURATION_MS));
}

#[test]
fn close_enough_handles_huge_durations() {
    // The comparison must not overflow for durations near the limit.
    assert!(!close_enough(u64::MAX, 250, BEEP_BOUNCE_MAX_DURATION_MS));
    assert!(close_enough(u64::MAX, u64::MAX, BEEP_BOUNCE_MAX_DURATION_MS));
}
