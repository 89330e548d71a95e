use std::collections::HashSet;

use backend::monitor::{
    apply_monitor_update, contains_id, has_assigned_tag, is_exclusive_assignment, monitor_runs_on_vps,
    monitor_status_label, new_monitor_settings, runnable_monitor_ids, union_sorted_dedup,
    vps_ids_for_monitor, MonitorAssignment, MonitorSettingsUpdate,
};

fn set(ids: &[i32]) -> HashSet<i32> {
    ids.iter().copied().collect()
}

#[test]
fn assignment_type_parsing() {
    assert!(is_exclusive_assignment("EXCLUSIVE"));
    assert!(!is_exclusive_assignment("INCLUSIVE"));
    assert!(!is_exclusive_assignment("exclusive"));
    assert!(!is_exclusive_assignment(""));
}

#[test]
fn id_list_helpers() {
    assert!(contains_id(&vec![3, 5, 8], 5));
    assert!(!contains_id(&vec![3, 5, 8], 4));
    assert!(has_assigned_tag(&vec![1, 2], &set(&[9, 2])));
    assert!(!has_assigned_tag(&vec![1, 2], &set(&[])));
    assert!(!has_assigned_tag(&vec![], &set(&[1])));
}

#[test]
fn inclusive_monitor_runs_on_assigned_or_tagged_vps() {
    assert!(monitor_runs_on_vps("INCLUSIVE", &set(&[1, 2]), &set(&[]), 2, &vec![]));
    assert!(monitor_runs_on_vps("INCLUSIVE", &set(&[]), &set(&[7]), 3, &vec![6, 7]));
    assert!(!monitor_runs_on_vps("INCLUSIVE", &set(&[1]), &set(&[7]), 3, &vec![6]));
}

#[test]
fn exclusive_monitor_is_the_complement() {
    for (agents, tags, vps, vps_tags) in [
        (vec![1, 2], vec![], 2, vec![]),
        (vec![], vec![7], 3, vec![6, 7]),
        (vec![1], vec![7], 3, vec![6]),
    ] {
        let inc = monitor_runs_on_vps("INCLUSIVE", &set(&agents), &set(&tags), vps, &vps_tags);
        let exc = monitor_runs_on_vps("EXCLUSIVE", &set(&agents), &set(&tags), vps, &vps_tags);
        assert_eq!(inc, !exc);
    }
}

#[test]
fn runnable_monitors_for_a_vps() {
    let monitors = vec![
        MonitorAssignment { monitor_id: 1, assignment_type: "INCLUSIVE".to_string(), agent_ids: set(&[10]), tag_ids: set(&[]) },
        MonitorAssignment { monitor_id: 2, assignment_type: "EXCLUSIVE".to_string(), agent_ids: set(&[10]), tag_ids: set(&[]) },
        MonitorAssignment { monitor_id: 3, assignment_type: "INCLUSIVE".to_string(), agent_ids: set(&[]), tag_ids: set(&[5]) },
        MonitorAssignment { monitor_id: 4, assignment_type: "EXCLUSIVE".to_string(), agent_ids: set(&[11]), tag_ids: set(&[6]) },
    ];
    assert_eq!(runnable_monitor_ids(&monitors, 10, &vec![5]), vec![1, 3, 4]);
    assert_eq!(runnable_monitor_ids(&monitors, 11, &vec![]), vec![2]);
}

#[test]
fn union_is_sorted_and_deduplicated() {
    assert_eq!(union_sorted_dedup(&vec![5, 1, 3, 1], &vec![3, 2, 9]), vec![1, 2, 3, 5, 9]);
    assert_eq!(union_sorted_dedup(&vec![], &vec![]), Vec::<i32>::new());
}

#[test]
fn vps_ids_for_inclusive_and_exclusive_monitors() {
    let all = vec![1, 2, 3, 4, 5];
    assert_eq!(vps_ids_for_monitor("INCLUSIVE", &vec![4, 2], &vec![2, 1], &all), vec![1, 2, 4]);
    assert_eq!(vps_ids_for_monitor("EXCLUSIVE", &vec![4, 2], &vec![2, 1], &all), vec![3, 5]);
}

#[test]
fn status_label() {
    assert_eq!(monitor_status_label(true), "UP");
    assert_eq!(monitor_status_label(false), "DOWN");
}

#[test]
fn new_monitor_defaults() {
    let s = new_monitor_settings("web".to_string(), "http".to_string(), "https://a".to_string(), None, None, None, None, None);
    assert_eq!(s.frequency_seconds, 60);
    assert_eq!(s.timeout_seconds, 10);
    assert!(s.is_active);
    assert_eq!(s.assignment_type, "INCLUSIVE");
    let s = new_monitor_settings(
        "db".to_string(),
        "tcp".to_string(),
        "db:5432".to_string(),
        Some(30),
        Some(5),
        Some(false),
        Some("EXCLUSIVE".to_string()),
        Some("{\"method\":\"GET\"}".to_string()),
    );
    assert_eq!(s.name, "db");
    assert_eq!(s.frequency_seconds, 30);
    assert_eq!(s.timeout_seconds, 5);
    assert!(!s.is_active);
    assert_eq!(s.assignment_type, "EXCLUSIVE");
    assert_eq!(s.monitor_config, Some("{\"method\":\"GET\"}".to_string()));
}

#[test]
fn monitor_update_changes_only_given_fields() {
    let s = new_monitor_settings("web".to_string(), "http".to_string(), "https://a".to_string(), None, None, None, None, None);
    let u = MonitorSettingsUpdate {
        name: None,
        monitor_type: None,
        target: Some("https://b".to_string()),
        frequency_seconds: Some(120),
        timeout_seconds: None,
        is_active: Some(false),
        assignment_type: None,
        monitor_config: Some("{}".to_string()),
    };
    let s = apply_monitor_update(s, u);
    assert_eq!(s.name, "web");
    assert_eq!(s.monitor_type, "http");
    assert_eq!(s.target, "https://b");
    assert_eq!(s.frequency_seconds, 120);
    assert_eq!(s.timeout_seconds, 10);
    assert!(!s.is_active);
    assert_eq!(s.assignment_type, "INCLUSIVE");
    assert_eq!(s.monitor_config, Some("{}".to_string()));
}
