use backend::errors::AppError;
use backend::oauth::{provider_user_id_of, username_of, UserInfoValue};
use backend::text::i64_to_decimal;
use backend::api::new_vps;
use backend::batch::{batch_accepted_response, check_batch_detail_access, BatchCommandServiceError};
use backend::renewal::{calculate_next_renewal_date, reminder_due, RenewalState};
use backend::time::UtcTime;
use backend::metrics::{source_table, source_time_column, time_bucket_expr, MetricSource};
use backend::monitor::{apply_assignments_update, assigned_ids, union_sorted_dedup, AssignmentsUpdate};
use backend::notify::{webhook_response_outcome, SenderError};

#[test]
fn metric_tables_and_buckets() {
    assert_eq!(source_table(MetricSource::Raw), "performance_metrics");
    assert_eq!(source_table(MetricSource::Summary1m), "performance_metrics_summary_1m");
    assert_eq!(source_table(MetricSource::Summary1h), "performance_metrics_summary_1h");
    assert_eq!(source_table(MetricSource::Summary1d), "performance_metrics_summary_1d");
    assert_eq!(source_time_column(MetricSource::Raw), "time");
    assert_eq!(source_time_column(MetricSource::Summary1h), "bucket");
    assert_eq!(time_bucket_expr(300, "bucket"), "time_bucket(INTERVAL '300 seconds', \"bucket\")");
    assert_eq!(time_bucket_expr(1, "time"), "time_bucket(INTERVAL '1 seconds', \"time\")");
}

#[test]
fn monitor_assignments_replaced_as_a_whole() {
    let (a, t) = apply_assignments_update(vec![1, 2], vec![5], None);
    assert_eq!((a, t), (vec![1, 2], vec![5]));
    let (a, t) = apply_assignments_update(vec![1, 2], vec![5], Some(AssignmentsUpdate { agent_ids: Some(vec![3]), tag_ids: None }));
    assert_eq!((a, t), (vec![3], vec![]));
}

#[test]
fn affected_vps_of_a_monitor_update() {
    // Both the VPS that ran the monitor and those that run it now.
    assert_eq!(union_sorted_dedup(&vec![4, 1], &vec![1, 7]), vec![1, 4, 7]);
}

#[test]
fn assignment_rows_grouped_by_monitor() {
    let rows = vec![(1, 10), (2, 20), (1, 11), (3, 30), (1, 10)];
    assert_eq!(assigned_ids(&rows, 1), vec![10, 11, 10]);
    assert_eq!(assigned_ids(&rows, 2), vec![20]);
    assert!(assigned_ids(&rows, 9).is_empty());
}

#[test]
fn webhook_response_statuses() {
    assert!(webhook_response_outcome(200, "200 OK", "").is_ok());
    assert!(webhook_response_outcome(204, "204 No Content", "").is_ok());
    match webhook_response_outcome(404, "404 Not Found", "nope") {
        Err(SenderError::SendFailed(m)) => {
            assert_eq!(m, "Webhook returned non-success status: 404 Not Found. Body: nope")
        }
        other => panic!("unexpected {:?}", other),
    }
    assert!(webhook_response_outcome(300, "300 Multiple Choices", "").is_err());
    assert!(webhook_response_outcome(199, "199 <unknown status code>", "").is_err());
}

#[test]
fn new_vps_defaults() {
    let v = new_vps(3, "edge-1");
    assert_eq!(v.user_id, 3);
    assert_eq!(v.name, "edge-1");
    assert_eq!(v.status, "pending");
    assert_eq!(v.config_status, "unknown");
    assert_eq!(v.agent_secret.len(), 36);
    assert_eq!(v.traffic.current_cycle_rx_bytes, Some(0));
    assert_eq!(v.traffic.last_processed_cumulative_tx, Some(0));
    let w = new_vps(3, "edge-2");
    assert_ne!(v.agent_secret, w.agent_secret);
}

#[test]
fn batch_detail_access() {
    assert!(matches!(check_batch_detail_access(None, 1), Ok(false)));
    assert!(matches!(check_batch_detail_access(Some(1), 1), Ok(true)));
    assert!(matches!(check_batch_detail_access(Some(2), 1), Err(BatchCommandServiceError::Unauthorized)));
}

#[test]
fn provider_user_fields() {
    assert_eq!(provider_user_id_of(Some(UserInfoValue::Text("abc".to_string()))).unwrap(), "abc");
    assert_eq!(provider_user_id_of(Some(UserInfoValue::Integer(583231))).unwrap(), "583231");
    assert_eq!(provider_user_id_of(Some(UserInfoValue::Integer(-42))).unwrap(), "-42");
    match provider_user_id_of(Some(UserInfoValue::Other)) {
        Err(AppError::InternalServerError(m)) => assert_eq!(m, "Could not extract provider user ID."),
        other => panic!("unexpected {:?}", other),
    }
    assert!(provider_user_id_of(None).is_err());
    assert_eq!(username_of(Some(UserInfoValue::Text("octocat".to_string()))).unwrap(), "octocat");
    match username_of(Some(UserInfoValue::Integer(5))) {
        Err(AppError::InternalServerError(m)) => assert_eq!(m, "Could not extract username."),
        other => panic!("unexpected {:?}", other),
    }
}

#[test]
fn signed_decimal_rendering() {
    for n in [0i64, 9, -1, -10, 1234, i64::MAX, i64::MIN] {
        assert_eq!(i64_to_decimal(n), n.to_string());
    }
}

#[test]
fn accepted_batch_response() {
    let r = batch_accepted_response(42);
    assert_eq!(r.batch_command_id, 42);
    assert_eq!(r.status, "PENDING");
    assert_eq!(r.message, "Batch command task accepted and is being processed.");
}

#[test]
fn renewals_across_chrono_range() {
    // 0000-01-31T00:00:00Z monthly -> 0000-02-29 (year 0 is a leap year).
    let jan_31_year_0: i64 = -62_164_627_200;
    assert_eq!(
        calculate_next_renewal_date(UtcTime { secs: jan_31_year_0, nanos: 0 }, "monthly", None),
        Some(UtcTime { secs: jan_31_year_0 + 29 * 86_400, nanos: 0 })
    );
    // A renewal that would leave chrono's calendar has no next date.
    assert_eq!(calculate_next_renewal_date(UtcTime { secs: 8_210_264_976_000, nanos: 0 }, "monthly", None), None);
}

#[test]
fn reminder_with_a_long_threshold() {
    let now: i64 = 1_706_659_200;
    let s = RenewalState {
        renewal_cycle: None,
        renewal_cycle_custom_days: None,
        next_renewal_date: Some(UtcTime { secs: now + 91_000_000 * 86_400, nanos: 0 }),
        last_renewal_date: None,
        auto_renew_enabled: None,
        reminder_active: None,
        last_reminder_generated_at: None,
    };
    let now = UtcTime { secs: now, nanos: 0 };
    assert!(reminder_due(&s, now, 92_000_000));
    assert!(!reminder_due(&s, now, 90_000_000));
}
