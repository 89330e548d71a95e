use backend::api::{
    bulk_tags_decision, bulk_tags_refusal, check_vps_row_access, links_after_bulk_update, new_vps,
    BulkTagsDecision,
};
use backend::batch::{
    plan_batch_creation, plan_child_output, BatchCommandServiceError, BatchCommandStatus,
    ChildCommandStatus, ChildLogPaths, CreateBatchCommandRequest, OutputStream,
};
use backend::metrics::{aggregate_columns, MetricSource};
use backend::monitor::check_monitor_access;

fn sorted(mut v: Vec<(i32, i32)>) -> Vec<(i32, i32)> {
    v.sort();
    v.dedup();
    v
}

#[test]
fn bulk_tag_update_removal_wins() {
    let links = vec![(1, 10), (1, 11), (2, 10), (3, 12)];
    let r = links_after_bulk_update(&links, &vec![1, 2], &vec![11, 12, 13], &vec![10, 13]);
    // VPS 1 and 2: former tags plus 11 and 12, without 10 and 13; VPS 3 unchanged.
    assert_eq!(sorted(r), vec![(1, 11), (1, 12), (2, 11), (2, 12), (3, 12)]);
}

#[test]
fn bulk_tag_update_keeps_existing_links_once() {
    let r = links_after_bulk_update(&vec![(1, 10)], &vec![1], &vec![10], &vec![]);
    assert_eq!(sorted(r), vec![(1, 10)]);
    let r = links_after_bulk_update(&vec![(5, 1)], &vec![], &vec![2], &vec![1]);
    assert_eq!(sorted(r), vec![(5, 1)]);
}

#[test]
fn bulk_tag_refusal_message() {
    let d = bulk_tags_decision(2, 1, 0, 1);
    assert_eq!(d, BulkTagsDecision::NotOwner);
    assert_eq!(bulk_tags_refusal(&d), Some("Authorization failed: User does not own all specified VPS".to_string()));
    assert_eq!(bulk_tags_refusal(&bulk_tags_decision(2, 1, 0, 2)), None);
}

#[test]
fn agent_secret_is_a_v4_uuid() {
    let s = new_vps(1, "a").agent_secret;
    let chars: Vec<char> = s.chars().collect();
    assert_eq!(chars.len(), 36);
    for (i, c) in chars.iter().enumerate() {
        if [8, 13, 18, 23].contains(&i) {
            assert_eq!(*c, '-');
        } else {
            assert!(c.is_ascii_hexdigit() && !c.is_ascii_uppercase());
        }
    }
    assert_eq!(chars[14], '4');
    assert!(['8', '9', 'a', 'b'].contains(&chars[19]));
}

#[test]
fn ownership_checks() {
    assert!(check_monitor_access(true).is_ok());
    assert_eq!(check_monitor_access(false), Err("Monitor not found or permission denied".to_string()));
    assert!(check_vps_row_access(false, false).is_ok());
    assert!(check_vps_row_access(true, true).is_ok());
    assert_eq!(check_vps_row_access(true, false), Err("VPS not found or access denied".to_string()));
}

#[test]
fn batch_creation_plan() {
    let req = CreateBatchCommandRequest {
        command_content: Some("uptime".to_string()),
        script_id: None,
        working_directory: None,
        target_vps_ids: vec!["3".to_string(), "7".to_string()],
        execution_alias: Some("check".to_string()),
    };
    let (batch, children) = plan_batch_creation(9, &req).unwrap();
    assert_eq!(batch.user_id, 9);
    assert_eq!(batch.status, BatchCommandStatus::Pending);
    assert_eq!(batch.execution_alias, Some("check".to_string()));
    assert_eq!(children.len(), 2);
    assert_eq!(children[0].vps_id, "3");
    assert_eq!(children[1].vps_id, "7");
    assert!(children.iter().all(|c| c.status == ChildCommandStatus::Pending));
    let bad = CreateBatchCommandRequest { target_vps_ids: vec![], ..req };
    match plan_batch_creation(9, &bad) {
        Err(BatchCommandServiceError::ValidationError(m)) => assert_eq!(m, "At least one target_vps_id must be provided."),
        other => panic!("unexpected {:?}", other),
    }
}

#[test]
fn child_output_plan() {
    assert!(matches!(
        plan_child_output(None, 77, OutputStream::Stdout, 3),
        Err(BatchCommandServiceError::NotFound(77))
    ));
    let paths = ChildLogPaths { has_stdout_path: false, has_stderr_path: true };
    let p = plan_child_output(Some(paths), 77, OutputStream::Stdout, 3).unwrap();
    assert!(p.set_stdout_path && !p.set_stderr_path && p.append_chunk);
    let p = plan_child_output(Some(paths), 77, OutputStream::Stderr, 0).unwrap();
    assert!(!p.set_stdout_path && !p.set_stderr_path && !p.append_chunk);
}

#[test]
fn aggregate_query_columns() {
    let raw = aggregate_columns(MetricSource::Raw);
    assert_eq!(raw.len(), 10);
    assert_eq!(raw[0], ("AVG(cpu_usage_percent)::double precision".to_string(), "avg_cpu_usage_percent".to_string()));
    assert_eq!(raw[2], ("MAX(memory_total_bytes)::double precision".to_string(), "max_memory_total_bytes".to_string()));
    let summary = aggregate_columns(MetricSource::Summary1h);
    assert_eq!(summary[0].0, "AVG(avg_cpu_usage_percent)::double precision");
    assert_eq!(summary[2].0, "MAX(max_memory_total_bytes)::double precision");
    assert_eq!(summary[9], (
        "AVG(avg_total_disk_space_bytes)::double precision".to_string(),
        "avg_total_disk_space_bytes".to_string()
    ));
}
