use backend::agent_config::{config_push_status, merge_agent_config, AgentConfig};
use backend::api::{
    alert_cooldown_seconds, apply_alert_rule_update, bulk_tags_decision, bulk_update_check_response,
    check_script_name, check_vps_owner, create_static_file_service, dismiss_reminder_status,
    remove_tag_status, tag_from_create_request, tag_from_update_request, tag_links_to_add,
    vps_row_changes, vps_update_status, AlertRuleFields, AlertRuleFieldsUpdate, BulkTagsDecision,
    CommandScriptError, CreateTagRequest, FallbackBehavior, UpdateTagRequest,
};
use backend::errors::AppError;
use backend::time::UtcTime;
use backend::metrics::{
    bucket_seconds, check_time_range, interval_fits, metric_source_for_range,
    parse_interval_seconds, plan_metrics_query, MetricSource, MetricsQueryPlan,
};
use backend::oauth::{
    authorize_url, callback_uri, check_oauth_state, login_redirect_url, provider_not_found,
    public_provider_info, resolve_oauth_user, token_request_params, updates_client_secret,
    user_id_field, username_field, OAuthUserAction, ProviderRecord,
};
use backend::ws::{
    batch_update_action, client_frame_action, server_tags, server_update_action, ClientFrame,
    ServerTag, SocketAction, SocketKind,
};

#[test]
fn static_files_fall_back_to_index() {
    let s = create_static_file_service();
    assert_eq!(s.index_file, Some("index.html".to_string()));
    assert_eq!(s.fallback_behavior, FallbackBehavior::OkStatus);
    assert_eq!(s.fallback_file, Some("index.html".to_string()));
}

#[test]
fn tags_from_requests() {
    let t = tag_from_create_request(CreateTagRequest {
        name: "prod".to_string(),
        color: "#f00".to_string(),
        icon: None,
        url: Some("https://x".to_string()),
        is_visible: None,
    });
    assert!(t.is_visible);
    assert_eq!(t.name, "prod");
    assert_eq!(t.url, Some("https://x".to_string()));
    let t = tag_from_update_request(UpdateTagRequest {
        name: "dev".to_string(),
        color: "#0f0".to_string(),
        icon: Some("i".to_string()),
        url: None,
        is_visible: false,
    });
    assert!(!t.is_visible);
    assert_eq!(t.icon, Some("i".to_string()));
}

#[test]
fn bulk_tag_links() {
    assert_eq!(tag_links_to_add(&vec![1, 2], &vec![7, 8]), vec![(1, 7), (1, 8), (2, 7), (2, 8)]);
    assert!(tag_links_to_add(&vec![1], &vec![]).is_empty());
}

#[test]
fn bulk_tag_decisions() {
    assert_eq!(bulk_tags_decision(0, 0, 0, 0), BulkTagsDecision::NothingToDo);
    assert_eq!(bulk_tags_decision(3, 1, 0, 2), BulkTagsDecision::NotOwner);
    assert_eq!(bulk_tags_decision(3, 1, 0, 3), BulkTagsDecision::Apply { add_links: true, remove_links: false });
    assert_eq!(bulk_tags_decision(2, 0, 4, 2), BulkTagsDecision::Apply { add_links: false, remove_links: true });
    assert_eq!(bulk_tags_decision(0, 2, 2, 0), BulkTagsDecision::Apply { add_links: false, remove_links: false });
}

#[test]
fn bulk_update_check_messages() {
    let r = bulk_update_check_response(0, 0);
    assert_eq!((r.message.as_str(), r.successful_count, r.failed_count), ("No VPS IDs provided.", 0, 0));
    let r = bulk_update_check_response(12, 10);
    assert_eq!(r.message, "Update commands sent. Success: 10, Failed/Not Found: 2.");
    assert_eq!((r.successful_count, r.failed_count), (10, 2));
}

#[test]
fn vps_ownership_and_statuses() {
    assert!(check_vps_owner(1, 1, "no").is_ok());
    match check_vps_owner(1, 2, "Access denied") {
        Err(AppError::Unauthorized(m)) => assert_eq!(m, "Access denied"),
        other => panic!("unexpected {:?}", other),
    }
    assert!(vps_row_changes(false, false, false, false, false, false, true));
    assert!(!vps_row_changes(false, false, false, false, false, false, false));
    assert_eq!(vps_update_status(false, false, false), 304);
    assert_eq!(vps_update_status(false, true, false), 200);
    assert_eq!(remove_tag_status(1), 204);
    assert_eq!(remove_tag_status(0), 404);
    assert_eq!(dismiss_reminder_status(1), 200);
    assert_eq!(dismiss_reminder_status(0), 304);
}

#[test]
fn alert_rules() {
    assert_eq!(alert_cooldown_seconds(None), 300);
    assert_eq!(alert_cooldown_seconds(Some(60)), 60);
    let current = AlertRuleFields {
        name: "cpu".to_string(),
        vps_id: Some(3),
        metric_type: "cpu_usage_percent".to_string(),
        comparison_operator: ">".to_string(),
        duration_seconds: 60,
        cooldown_seconds: 300,
    };
    let r = apply_alert_rule_update(
        current,
        AlertRuleFieldsUpdate {
            name: None,
            vps_id: Some(None),
            metric_type: None,
            comparison_operator: Some("<".to_string()),
            duration_seconds: None,
            cooldown_seconds: Some(10),
        },
    );
    assert_eq!(r.name, "cpu");
    assert_eq!(r.vps_id, None);
    assert_eq!(r.comparison_operator, "<");
    assert_eq!(r.duration_seconds, 60);
    assert_eq!(r.cooldown_seconds, 10);
}

#[test]
fn script_names() {
    assert_eq!(check_script_name("backup".to_string(), false).unwrap(), "backup");
    match check_script_name("backup".to_string(), true) {
        Err(CommandScriptError::DuplicateName(n)) => assert_eq!(n, "backup"),
        other => panic!("unexpected {:?}", other),
    }
}

fn agent_config(interval: u32, log_level: &str, flags: Vec<(&str, bool)>) -> AgentConfig {
    AgentConfig {
        metrics_collect_interval_seconds: interval,
        metrics_upload_batch_max_size: 0,
        metrics_upload_interval_seconds: 0,
        docker_info_collect_interval_seconds: 0,
        docker_info_upload_interval_seconds: 0,
        generic_metrics_upload_batch_max_size: 0,
        generic_metrics_upload_interval_seconds: 0,
        log_level: log_level.to_string(),
        heartbeat_interval_seconds: 0,
        feature_flags: flags.into_iter().map(|(k, v)| (k.to_string(), v)).collect(),
    }
}

#[test]
fn agent_config_override() {
    let global = agent_config(30, "info", vec![("docker", true), ("gpu", false)]);
    let over = agent_config(5, "", vec![("gpu", true)]);
    let merged = merge_agent_config(global, over);
    assert_eq!(merged.metrics_collect_interval_seconds, 5);
    assert_eq!(merged.log_level, "info");
    let last = |name: &str| merged.feature_flags.iter().rev().find(|(k, _)| k == name).map(|(_, v)| *v);
    assert_eq!(last("docker"), Some(true));
    assert_eq!(last("gpu"), Some(true));
    let empty = merge_agent_config(agent_config(30, "debug", vec![]), agent_config(0, "", vec![]));
    assert_eq!(empty.metrics_collect_interval_seconds, 30);
    assert_eq!(empty.log_level, "debug");
}

#[test]
fn config_push_outcomes() {
    assert_eq!(config_push_status(true, true), ("pending", None));
    assert_eq!(config_push_status(true, false), ("failed", Some("Failed to send config to agent (channel closed).")));
    assert_eq!(config_push_status(false, false), ("failed", Some("Agent is not connected.")));
}

#[test]
fn interval_parsing() {
    assert_eq!(parse_interval_seconds("72s"), Some(72));
    assert_eq!(parse_interval_seconds("5m"), Some(300));
    assert_eq!(parse_interval_seconds("2h"), Some(7200));
    assert_eq!(parse_interval_seconds("5ss"), Some(5));
    assert_eq!(parse_interval_seconds("5"), None);
    assert_eq!(parse_interval_seconds("m"), None);
    assert_eq!(parse_interval_seconds(""), None);
    assert_eq!(parse_interval_seconds("-5m"), None);
    assert!(interval_fits("1193046h"));
    assert!(!interval_fits("1193047h"));
}

#[test]
fn metric_sources_by_range() {
    let start = moment(1_700_000_000, 0);
    let after = |secs: i64, nanos: u32| moment(1_700_000_000 + secs, nanos);
    assert_eq!(metric_source_for_range(start, after(3600, 0)), MetricSource::Raw);
    assert_eq!(metric_source_for_range(start, after(3600, 1)), MetricSource::Summary1m);
    assert_eq!(metric_source_for_range(start, after(3601, 0)), MetricSource::Summary1m);
    assert_eq!(metric_source_for_range(start, after(7 * 86400, 0)), MetricSource::Summary1m);
    assert_eq!(metric_source_for_range(start, after(30 * 86400, 0)), MetricSource::Summary1h);
    assert_eq!(metric_source_for_range(start, after(30 * 86400 + 1, 0)), MetricSource::Summary1d);
    assert_eq!(metric_source_for_range(moment(10, 500_000_000), moment(3610, 400_000_000)), MetricSource::Raw);
    assert_eq!(metric_source_for_range(moment(10, 500_000_000), moment(3610, 600_000_000)), MetricSource::Summary1m);
    assert_eq!(bucket_seconds(0), 1);
    assert_eq!(bucket_seconds(60), 60);
    assert!(check_time_range(moment(1, 0), moment(2, 0)).is_ok());
    assert!(check_time_range(moment(2, 0), moment(2, 1)).is_ok());
    match check_time_range(moment(2, 0), moment(2, 0)) {
        Err(AppError::InvalidInput(m)) => assert_eq!(m, "start_time must be before end_time"),
        other => panic!("unexpected {:?}", other),
    }
    match check_time_range(moment(2, 5), moment(2, 4)) {
        Err(AppError::InvalidInput(m)) => assert_eq!(m, "start_time must be before end_time"),
        other => panic!("unexpected {:?}", other),
    }
}

#[test]
fn metrics_query_plans() {
    assert!(matches!(
        plan_metrics_query(None, moment(0, 0), moment(100 * 86400, 0)),
        MetricsQueryPlan::RawRows
    ));
    match plan_metrics_query(Some(0), moment(0, 0), moment(1800, 0)) {
        MetricsQueryPlan::Aggregated { source, table, time_column, bucket, columns } => {
            assert_eq!(source, MetricSource::Raw);
            assert_eq!(table, "performance_metrics");
            assert_eq!(time_column, "time");
            assert_eq!(bucket, "time_bucket(INTERVAL '1 seconds', \"time\")");
            assert_eq!(columns.len(), 10);
            assert_eq!(columns[0].0, "AVG(cpu_usage_percent)::double precision");
            assert_eq!(columns[2].0, "MAX(memory_total_bytes)::double precision");
            assert_eq!(columns[2].1, "max_memory_total_bytes");
        }
        MetricsQueryPlan::RawRows => panic!("expected an aggregated query"),
    }
    match plan_metrics_query(Some(300), moment(0, 0), moment(10 * 86400, 0)) {
        MetricsQueryPlan::Aggregated { source, table, time_column, bucket, columns } => {
            assert_eq!(source, MetricSource::Summary1h);
            assert_eq!(table, "performance_metrics_summary_1h");
            assert_eq!(time_column, "bucket");
            assert_eq!(bucket, "time_bucket(INTERVAL '300 seconds', \"bucket\")");
            assert_eq!(columns[9].0, "AVG(avg_total_disk_space_bytes)::double precision");
            assert_eq!(columns[9].1, "avg_total_disk_space_bytes");
        }
        MetricsQueryPlan::RawRows => panic!("expected an aggregated query"),
    }
}

fn moment(secs: i64, nanos: u32) -> UtcTime {
    UtcTime { secs, nanos }
}

fn provider() -> ProviderRecord {
    ProviderRecord {
        provider_name: "github".to_string(),
        client_id: "cid".to_string(),
        client_secret: "secret".to_string(),
        auth_url: "https://github.com/login/oauth/authorize".to_string(),
        token_url: "https://github.com/login/oauth/access_token".to_string(),
        user_info_url: "https://api.github.com/user".to_string(),
        scopes: Some("read:user".to_string()),
        icon_url: None,
        enabled: true,
    }
}

#[test]
fn oauth_urls() {
    assert_eq!(callback_uri("https://app", "github"), "https://app/api/auth/github/callback");
    assert_eq!(
        authorize_url("https://gh/auth", "cid", "https://app", "github", "st4te", Some("read:user")),
        "https://gh/auth?client_id=cid&response_type=code&redirect_uri=https://app/api/auth/github/callback&state=st4te&scope=read:user"
    );
    assert_eq!(
        authorize_url("https://gh/auth", "cid", "https://app", "github", "s", None),
        "https://gh/auth?client_id=cid&response_type=code&redirect_uri=https://app/api/auth/github/callback&state=s"
    );
    assert_eq!(login_redirect_url("https://app", "tok"), "https://app/auth/callback?token=tok");
}

#[test]
fn oauth_state_checks() {
    assert!(check_oauth_state(Some("abc"), "abc").is_ok());
    match check_oauth_state(Some("abc"), "abd") {
        Err(AppError::InvalidInput(m)) => assert_eq!(m, "CSRF state mismatch."),
        other => panic!("unexpected {:?}", other),
    }
    match check_oauth_state(None, "abc") {
        Err(AppError::InvalidInput(m)) => assert_eq!(m, "Missing CSRF state cookie."),
        other => panic!("unexpected {:?}", other),
    }
}

#[test]
fn oauth_provider_handling() {
    let p = public_provider_info(provider());
    assert_eq!(p.provider_name, "github");
    assert_eq!(p.client_id, "cid");
    assert_eq!(p.scopes, Some("read:user".to_string()));
    assert_eq!(user_id_field(None), "id");
    assert_eq!(user_id_field(Some("sub")), "sub");
    assert_eq!(username_field(None), "login");
    assert_eq!(username_field(Some("name")), "name");
    match provider_not_found("gitlab") {
        AppError::NotFound(m) => assert_eq!(m, "OAuth provider 'gitlab' not found"),
        other => panic!("unexpected {:?}", other),
    }
    assert!(updates_client_secret("x"));
    assert!(!updates_client_secret(""));
    let params = token_request_params("cid", "sec", "code1", "https://cb");
    let expected: Vec<(String, String)> = vec![
        ("client_id", "cid"),
        ("client_secret", "sec"),
        ("code", "code1"),
        ("redirect_uri", "https://cb"),
        ("grant_type", "authorization_code"),
    ]
    .into_iter()
    .map(|(k, v)| (k.to_string(), v.to_string()))
    .collect();
    assert_eq!(params, expected);
}

#[test]
fn oauth_user_resolution() {
    assert_eq!(resolve_oauth_user(Some(7), true).unwrap(), OAuthUserAction::UseExisting(7));
    assert_eq!(resolve_oauth_user(None, false).unwrap(), OAuthUserAction::CreateNew);
    match resolve_oauth_user(None, true) {
        Err(AppError::Conflict(m)) => assert_eq!(m, "Username already exists."),
        other => panic!("unexpected {:?}", other),
    }
}

fn pong(a: SocketAction) -> Option<Vec<u8>> {
    match a {
        SocketAction::SendPong(p) => Some(p),
        _ => None,
    }
}

fn text(a: SocketAction) -> Option<String> {
    match a {
        SocketAction::SendText(t) => Some(t),
        _ => None,
    }
}

#[test]
fn socket_frames() {
    for kind in [SocketKind::Private, SocketKind::Public, SocketKind::Batch] {
        assert_eq!(pong(client_frame_action(kind, ClientFrame::Ping(vec![1, 2]))), Some(vec![1, 2]));
        assert!(matches!(client_frame_action(kind, ClientFrame::Close), SocketAction::Close));
        assert!(matches!(client_frame_action(kind, ClientFrame::Binary(vec![0])), SocketAction::Skip));
        assert!(matches!(client_frame_action(kind, ClientFrame::Pong(vec![])), SocketAction::Skip));
        assert!(matches!(client_frame_action(kind, ClientFrame::Text("hello".to_string())), SocketAction::Skip));
    }
    assert_eq!(text(client_frame_action(SocketKind::Private, ClientFrame::Text("ping".to_string()))), Some("pong".to_string()));
    assert!(matches!(client_frame_action(SocketKind::Public, ClientFrame::Text("ping".to_string())), SocketAction::Skip));
    assert!(matches!(client_frame_action(SocketKind::Batch, ClientFrame::Text("ping".to_string())), SocketAction::Skip));
}

#[test]
fn socket_updates() {
    assert_eq!(text(server_update_action(Some("{}".to_string()))), Some("{}".to_string()));
    assert!(matches!(server_update_action(None), SocketAction::Skip));
    let id = "6f1c2a3b-0000-4000-8000-000000000001";
    assert_eq!(text(batch_update_action(id, "m".to_string(), Some(id.to_string()))), Some("m".to_string()));
    assert!(matches!(
        batch_update_action(id, "m".to_string(), Some("6f1c2a3b-0000-4000-8000-000000000002".to_string())),
        SocketAction::Skip
    ));
    assert!(matches!(batch_update_action(id, "m".to_string(), None), SocketAction::Skip));
}

#[test]
fn server_tag_lists() {
    assert!(server_tags(vec![]).is_none());
    let tags = server_tags(vec![ServerTag {
        id: 1,
        name: "prod".to_string(),
        color: "red".to_string(),
        icon: None,
        url: None,
        is_visible: true,
    }])
    .unwrap();
    assert_eq!(tags.len(), 1);
    assert_eq!(tags[0].name, "prod");
}
