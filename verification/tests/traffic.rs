use backend::traffic::{
    apply_traffic_sample, due_for_traffic_reset, next_monthly_reset, next_reset_after,
    parse_monthly_reset_config, process_traffic_reset, reset_in_range, traffic_delta,
    check_traffic_reset, TrafficCounters, TrafficResetOutcome,
};
use backend::time::UtcTime;

fn at(secs: i64) -> UtcTime {
    UtcTime { secs, nanos: 0 }
}

const JAN_15_2024: i64 = 1_705_276_800;
const FEB_29_2024: i64 = 1_709_164_800;

#[test]
fn delta_of_growing_and_reset_counters() {
    assert_eq!(traffic_delta(1500, 1000), 500);
    assert_eq!(traffic_delta(1000, 1000), 0);
    // The agent restarted: the counter went back, all of it is new.
    assert_eq!(traffic_delta(300, 1000), 300);
}

#[test]
fn sample_accumulates_into_cycle() {
    let c = TrafficCounters {
        current_cycle_rx_bytes: None,
        current_cycle_tx_bytes: Some(10),
        last_processed_cumulative_rx: None,
        last_processed_cumulative_tx: Some(100),
    };
    let c = apply_traffic_sample(c, 500, 150);
    assert_eq!(c.current_cycle_rx_bytes, Some(500));
    assert_eq!(c.current_cycle_tx_bytes, Some(60));
    assert_eq!(c.last_processed_cumulative_rx, Some(500));
    assert_eq!(c.last_processed_cumulative_tx, Some(150));
}

#[test]
fn repeated_sample_is_counted_once() {
    let c = TrafficCounters {
        current_cycle_rx_bytes: Some(7),
        current_cycle_tx_bytes: Some(9),
        last_processed_cumulative_rx: Some(100),
        last_processed_cumulative_tx: Some(200),
    };
    let once = apply_traffic_sample(c, 400, 250);
    let twice = apply_traffic_sample(once, 400, 250);
    assert_eq!(once.current_cycle_rx_bytes, Some(307));
    assert_eq!(once.current_cycle_tx_bytes, Some(59));
    assert_eq!(twice.current_cycle_rx_bytes, once.current_cycle_rx_bytes);
    assert_eq!(twice.current_cycle_tx_bytes, once.current_cycle_tx_bytes);
}

#[test]
fn monthly_config_parsing() {
    assert_eq!(parse_monthly_reset_config("day:15,time_offset_seconds:3600"), (Some(15), 3600));
    assert_eq!(parse_monthly_reset_config("day:1"), (Some(1), 0));
    assert_eq!(parse_monthly_reset_config("time_offset_seconds:-60,day:31"), (Some(31), -60));
    assert_eq!(parse_monthly_reset_config("day:x,time_offset_seconds:y"), (None, 0));
    assert_eq!(parse_monthly_reset_config(""), (None, 0));
    assert_eq!(parse_monthly_reset_config("day:5:6"), (None, 0));
}

#[test]
fn monthly_reset_clamps_to_month_end() {
    assert_eq!(next_monthly_reset(JAN_15_2024, 31, 0), Some(FEB_29_2024));
    assert_eq!(next_monthly_reset(JAN_15_2024, 31, 3600), Some(FEB_29_2024 + 3600));
    // 2024-02-01T00:00:00Z
    assert_eq!(next_monthly_reset(JAN_15_2024, 1, 0), Some(1_706_745_600));
    assert_eq!(next_monthly_reset(JAN_15_2024, 0, 0), None);
}

#[test]
fn monthly_reset_crosses_the_year() {
    // 2023-12-20T00:00:00Z -> 2024-01-10T00:00:00Z
    assert_eq!(next_monthly_reset(1_703_030_400, 10, 0), Some(1_704_844_800));
}

#[test]
fn next_reset_for_each_config() {
    assert_eq!(
        next_reset_after(Some("monthly_day_of_month"), Some("day:31"), at(JAN_15_2024)),
        Some(at(FEB_29_2024))
    );
    assert_eq!(next_reset_after(Some("fixed_days"), Some("30"), at(JAN_15_2024)), Some(at(JAN_15_2024 + 30 * 86400)));
    assert_eq!(next_reset_after(Some("fixed_days"), Some("0"), at(JAN_15_2024)), None);
    assert_eq!(next_reset_after(Some("fixed_days"), Some("ten"), at(JAN_15_2024)), None);
    assert_eq!(next_reset_after(Some("weekly"), Some("1"), at(JAN_15_2024)), None);
    assert_eq!(next_reset_after(None, Some("1"), at(JAN_15_2024)), None);
}

// 0000-06-15T00:00:00Z, a year before year 1.
const JUN_15_YEAR_0: i64 = -62_152_876_800;
// +262142-12-10T00:00:00Z, in the last month chrono represents.
const DEC_10_LAST_YEAR: i64 = 8_210_264_976_000;

#[test]
fn configs_in_chrono_range() {
    assert!(reset_in_range(Some("fixed_days"), Some("30"), JAN_15_2024));
    assert!(reset_in_range(Some("fixed_days"), Some("95000000"), JAN_15_2024));
    assert!(!reset_in_range(Some("fixed_days"), Some("9000000000"), JAN_15_2024));
    assert!(reset_in_range(Some("fixed_days"), Some("-5"), JAN_15_2024));
    assert!(reset_in_range(Some("monthly_day_of_month"), Some("day:1,time_offset_seconds:86400"), JAN_15_2024));
    assert!(reset_in_range(Some("monthly_day_of_month"), Some("day:1,time_offset_seconds:8000000000000"), JAN_15_2024));
    assert!(!reset_in_range(Some("monthly_day_of_month"), Some("day:1,time_offset_seconds:9000000000000"), JAN_15_2024));
    // The month after December of the last year does not exist.
    assert!(!reset_in_range(Some("monthly_day_of_month"), Some("day:1"), DEC_10_LAST_YEAR));
    assert!(reset_in_range(Some("monthly_day_of_month"), Some("day:x"), DEC_10_LAST_YEAR));
    assert!(reset_in_range(None, None, JAN_15_2024));
}

#[test]
fn resets_before_year_one() {
    // 0000-07-15T00:00:00Z
    assert_eq!(
        next_reset_after(Some("monthly_day_of_month"), Some("day:15"), at(JUN_15_YEAR_0)),
        Some(at(JUN_15_YEAR_0 + 30 * 86400))
    );
    match check_traffic_reset(Some(at(JUN_15_YEAR_0)), Some("fixed_days"), Some("10"), at(0)) {
        TrafficResetOutcome::Reset(r) => {
            assert_eq!(r.last_reset_at, at(JUN_15_YEAR_0));
            assert_eq!(r.next_reset_at, Some(at(JUN_15_YEAR_0 + 10 * 86400)));
            assert_eq!(r.current_cycle_rx_bytes, 0);
        }
        other => panic!("unexpected {:?}", other),
    }
}

#[test]
fn checked_resets() {
    // A reset far in the future is simply not due, whatever its configuration.
    assert!(matches!(check_traffic_reset(Some(at(i64::MAX)), Some("fixed_days"), Some("30"), at(JAN_15_2024)), TrafficResetOutcome::NotDue));
    assert!(matches!(check_traffic_reset(None, Some("fixed_days"), Some("30"), at(JAN_15_2024)), TrafficResetOutcome::NotDue));
    assert!(matches!(
        check_traffic_reset(Some(at(JAN_15_2024)), Some("fixed_days"), Some("9000000000"), at(JAN_15_2024)),
        TrafficResetOutcome::OutOfRange
    ));
    assert!(matches!(
        check_traffic_reset(Some(at(DEC_10_LAST_YEAR)), Some("monthly_day_of_month"), Some("day:1"), at(DEC_10_LAST_YEAR)),
        TrafficResetOutcome::OutOfRange
    ));
    assert!(matches!(check_traffic_reset(Some(at(i64::MIN)), None, None, at(0)), TrafficResetOutcome::OutOfRange));
    match check_traffic_reset(Some(at(JAN_15_2024)), Some("monthly_day_of_month"), Some("day:31"), at(JAN_15_2024 + 1)) {
        TrafficResetOutcome::Reset(r) => assert_eq!(r.next_reset_at, Some(at(FEB_29_2024))),
        other => panic!("unexpected {:?}", other),
    }
}

#[test]
fn reset_happens_only_when_due() {
    assert!(process_traffic_reset(Some(at(JAN_15_2024)), Some("fixed_days"), Some("30"), at(JAN_15_2024 - 1)).is_none());
    assert!(process_traffic_reset(None, Some("fixed_days"), Some("30"), at(JAN_15_2024)).is_none());
    let r = process_traffic_reset(Some(at(JAN_15_2024)), Some("fixed_days"), Some("30"), at(JAN_15_2024 + 5)).unwrap();
    assert_eq!(r.current_cycle_rx_bytes, 0);
    assert_eq!(r.current_cycle_tx_bytes, 0);
    assert_eq!(r.last_reset_at, at(JAN_15_2024));
    assert_eq!(r.next_reset_at, Some(at(JAN_15_2024 + 30 * 86400)));
}

#[test]
fn due_listing() {
    assert!(due_for_traffic_reset(true, true, Some(at(5)), at(5)));
    assert!(!due_for_traffic_reset(true, true, Some(at(6)), at(5)));
    assert!(!due_for_traffic_reset(false, true, Some(at(5)), at(5)));
    assert!(!due_for_traffic_reset(true, false, Some(at(5)), at(5)));
    assert!(!due_for_traffic_reset(true, true, None, at(5)));
}

#[test]
fn due_to_the_nanosecond() {
    let scheduled = UtcTime { secs: JAN_15_2024, nanos: 500_000_000 };
    let just_before = UtcTime { secs: JAN_15_2024, nanos: 200_000_000 };
    let just_after = UtcTime { secs: JAN_15_2024, nanos: 700_000_000 };
    assert!(!due_for_traffic_reset(true, true, Some(scheduled), just_before));
    assert!(due_for_traffic_reset(true, true, Some(scheduled), scheduled));
    assert!(matches!(check_traffic_reset(Some(scheduled), Some("fixed_days"), Some("1"), just_before), TrafficResetOutcome::NotDue));
    match check_traffic_reset(Some(scheduled), Some("fixed_days"), Some("1"), just_after) {
        TrafficResetOutcome::Reset(r) => {
            assert_eq!(r.last_reset_at, scheduled);
            // A fixed-length cycle keeps the fraction of a second.
            assert_eq!(r.next_reset_at, Some(UtcTime { secs: JAN_15_2024 + 86400, nanos: 500_000_000 }));
        }
        other => panic!("unexpected {:?}", other),
    }
    // A monthly cycle resets at a whole second.
    match check_traffic_reset(Some(scheduled), Some("monthly_day_of_month"), Some("day:31"), just_after) {
        TrafficResetOutcome::Reset(r) => assert_eq!(r.next_reset_at, Some(at(FEB_29_2024))),
        other => panic!("unexpected {:?}", other),
    }
}
