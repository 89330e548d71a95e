use backend::batch::{
    apply_child_status_update, check_child_termination, child_log_path, dispatch_plan,
    log_file_name, log_path_updates, next_batch_status, output_type_label,
    plan_batch_termination, status_after_dispatch, validate_batch_request, BatchCommandServiceError,
    BatchCommandStatus, BatchTaskRef, ChildCommandStatus, ChildTaskRef, ChildTaskState,
    CommandKind, CreateBatchCommandRequest, OutputStream,
};

fn request(content: Option<&str>, script: Option<&str>, targets: &[&str]) -> CreateBatchCommandRequest {
    CreateBatchCommandRequest {
        command_content: content.map(|s| s.to_string()),
        script_id: script.map(|s| s.to_string()),
        working_directory: None,
        target_vps_ids: targets.iter().map(|s| s.to_string()).collect(),
        execution_alias: None,
    }
}

fn validation_message(r: Result<(), BatchCommandServiceError>) -> String {
    match r {
        Err(BatchCommandServiceError::ValidationError(m)) => m,
        other => panic!("expected a validation error, got {:?}", other),
    }
}

#[test]
fn batch_request_needs_command_or_script() {
    let r = validate_batch_request(&request(None, None, &["1"]));
    assert_eq!(validation_message(r), "Either command_content or script_id must be provided.");
}

#[test]
fn batch_request_refuses_command_and_script() {
    let r = validate_batch_request(&request(Some("ls"), Some("7"), &["1"]));
    assert_eq!(validation_message(r), "Provide either command_content or script_id, not both.");
}

#[test]
fn batch_request_needs_a_target() {
    let r = validate_batch_request(&request(Some("ls"), None, &[]));
    assert_eq!(validation_message(r), "At least one target_vps_id must be provided.");
}

#[test]
fn batch_request_accepted() {
    assert!(validate_batch_request(&request(Some("uptime"), None, &["1", "2"])).is_ok());
    assert!(validate_batch_request(&request(None, Some("3"), &["1"])).is_ok());
}

#[test]
fn dispatch_plan_adhoc_and_script() {
    let (k, text) = dispatch_plan(&request(Some("uptime"), None, &["1"]));
    assert_eq!(k, CommandKind::AdhocCommand);
    assert_eq!(text, "uptime");
    let (k, text) = dispatch_plan(&request(None, Some("42"), &["1"]));
    assert_eq!(k, CommandKind::SavedScript);
    assert_eq!(text, "42");
    let (k, text) = dispatch_plan(&request(Some(""), Some("42"), &["1"]));
    assert_eq!(k, CommandKind::SavedScript);
    assert_eq!(text, "42");
}

#[test]
fn dispatch_outcome_statuses() {
    let (s, e) = status_after_dispatch(Ok(()));
    assert_eq!(s, ChildCommandStatus::SentToAgent);
    assert_eq!(e, None);
    let (s, e) = status_after_dispatch(Err("agent offline".to_string()));
    assert_eq!(s, ChildCommandStatus::AgentUnreachable);
    assert_eq!(e, Some("agent offline".to_string()));
}

#[test]
fn batch_waits_for_active_children() {
    let children = vec![ChildCommandStatus::CompletedSuccessfully, ChildCommandStatus::Executing];
    assert_eq!(next_batch_status(BatchCommandStatus::Executing, &children), None);
    assert_eq!(next_batch_status(BatchCommandStatus::Executing, &vec![]), None);
}

#[test]
fn batch_completes_successfully() {
    let children = vec![ChildCommandStatus::CompletedSuccessfully, ChildCommandStatus::CompletedSuccessfully];
    let next = next_batch_status(BatchCommandStatus::Executing, &children);
    assert_eq!(next, Some(BatchCommandStatus::CompletedSuccessfully));
    // Once moved on, the same children leave the batch where it is.
    assert_eq!(next_batch_status(next.unwrap(), &children), None);
}

#[test]
fn batch_completes_with_errors() {
    let children = vec![ChildCommandStatus::CompletedSuccessfully, ChildCommandStatus::TimedOut];
    assert_eq!(
        next_batch_status(BatchCommandStatus::Executing, &children),
        Some(BatchCommandStatus::CompletedWithErrors)
    );
    let children = vec![ChildCommandStatus::Terminated, ChildCommandStatus::AgentError];
    assert_eq!(
        next_batch_status(BatchCommandStatus::Terminating, &children),
        Some(BatchCommandStatus::CompletedWithErrors)
    );
}

#[test]
fn batch_terminated_when_children_terminated() {
    let children = vec![ChildCommandStatus::Terminated, ChildCommandStatus::CompletedSuccessfully];
    assert_eq!(
        next_batch_status(BatchCommandStatus::Terminating, &children),
        Some(BatchCommandStatus::Terminated)
    );
}

#[test]
fn final_batch_is_not_moved() {
    let children = vec![ChildCommandStatus::CompletedSuccessfully];
    assert_eq!(next_batch_status(BatchCommandStatus::Terminated, &children), None);
}

#[test]
fn status_classes() {
    assert!(BatchCommandStatus::CompletedWithErrors.is_final());
    assert!(!BatchCommandStatus::Terminating.is_final());
    assert!(ChildCommandStatus::AgentUnreachable.is_final());
    assert!(ChildCommandStatus::AgentAccepted.is_active());
    assert!(!ChildCommandStatus::Terminating.is_active());
    assert!(ChildCommandStatus::TimedOut.is_failure());
    assert!(!ChildCommandStatus::Terminated.is_failure());
}

fn child(id: u128, batch: u128, status: ChildCommandStatus) -> ChildTaskRef {
    ChildTaskRef { child_command_id: id, batch_command_id: batch, status }
}

#[test]
fn terminate_batch_plans() {
    let children = vec![
        child(1, 10, ChildCommandStatus::Executing),
        child(2, 10, ChildCommandStatus::CompletedSuccessfully),
        child(3, 11, ChildCommandStatus::Executing),
        child(4, 10, ChildCommandStatus::Pending),
    ];
    let task = BatchTaskRef { batch_command_id: 10, user_id: 5, status: BatchCommandStatus::Executing };
    let plan = plan_batch_termination(10, Some(task), 5, &children).unwrap();
    assert!(plan.mark_batch_terminating);
    assert_eq!(plan.children_to_terminate, vec![1, 4]);

    match plan_batch_termination(10, None, 5, &children) {
        Err(BatchCommandServiceError::NotFound(id)) => assert_eq!(id, 10),
        other => panic!("unexpected {:?}", other),
    }
    assert!(matches!(
        plan_batch_termination(10, Some(task), 6, &children),
        Err(BatchCommandServiceError::Unauthorized)
    ));
    let done = BatchTaskRef { batch_command_id: 10, user_id: 5, status: BatchCommandStatus::Terminated };
    let plan = plan_batch_termination(10, Some(done), 5, &children).unwrap();
    assert!(!plan.mark_batch_terminating);
    assert!(plan.children_to_terminate.is_empty());
}

#[test]
fn terminate_single_child_checks() {
    let c = child(1, 10, ChildCommandStatus::Executing);
    assert!(check_child_termination(c, Some(5), 5).is_ok());
    assert!(matches!(check_child_termination(c, Some(5), 6), Err(BatchCommandServiceError::Unauthorized)));
    assert!(matches!(check_child_termination(c, None, 5), Err(BatchCommandServiceError::NotFound(10))));
    let done = child(1, 10, ChildCommandStatus::CompletedSuccessfully);
    assert!(matches!(
        check_child_termination(done, Some(5), 5),
        Err(BatchCommandServiceError::TaskNotTerminable)
    ));
}

#[test]
fn child_status_update_sets_completion_once() {
    let state = ChildTaskState {
        status: ChildCommandStatus::Executing,
        exit_code: None,
        error_message: Some("old".to_string()),
        agent_completed_at: None,
        updated_at: 1,
    };
    let s = apply_child_status_update(state, ChildCommandStatus::CompletedSuccessfully, Some(0), None, 100);
    assert_eq!(s.status, ChildCommandStatus::CompletedSuccessfully);
    assert_eq!(s.exit_code, Some(0));
    assert_eq!(s.error_message, Some("old".to_string()));
    assert_eq!(s.agent_completed_at, Some(100));
    assert_eq!(s.updated_at, 100);
    let s = apply_child_status_update(s, ChildCommandStatus::Terminated, None, Some("stopped".to_string()), 200);
    assert_eq!(s.agent_completed_at, Some(100));
    assert_eq!(s.exit_code, Some(0));
    assert_eq!(s.error_message, Some("stopped".to_string()));
    assert_eq!(s.updated_at, 200);
}

#[test]
fn child_status_update_not_final_keeps_completion_empty() {
    let state = ChildTaskState {
        status: ChildCommandStatus::SentToAgent,
        exit_code: None,
        error_message: None,
        agent_completed_at: None,
        updated_at: 1,
    };
    let s = apply_child_status_update(state, ChildCommandStatus::Executing, None, None, 5);
    assert_eq!(s.agent_completed_at, None);
}

#[test]
fn output_streams() {
    assert_eq!(log_file_name(OutputStream::Stdout), "stdout.log");
    assert_eq!(log_file_name(OutputStream::Stderr), "stderr.log");
    assert_eq!(log_file_name(OutputStream::Unspecified), "output.log");
    assert_eq!(output_type_label(OutputStream::Stdout), "stdout");
    assert_eq!(output_type_label(OutputStream::Stderr), "stderr");
    assert_eq!(output_type_label(OutputStream::Unspecified), "unspecified");
    assert_eq!(log_path_updates(OutputStream::Stdout, false, false), (true, false));
    assert_eq!(log_path_updates(OutputStream::Stdout, true, false), (false, false));
    assert_eq!(log_path_updates(OutputStream::Stderr, false, false), (false, true));
    assert_eq!(log_path_updates(OutputStream::Unspecified, false, false), (false, false));
}

#[test]
fn child_log_path_layout() {
    let p = child_log_path(1, 0xabcdef, OutputStream::Stderr);
    assert_eq!(
        p,
        "logs/batch_commands/00000000-0000-0000-0000-000000000001/00000000-0000-0000-0000-000000abcdef/stderr.log"
    );
}

#[test]
fn status_names_and_db_values_round_trip() {
    let all = [
        BatchCommandStatus::Pending,
        BatchCommandStatus::Dispatching,
        BatchCommandStatus::Executing,
        BatchCommandStatus::CompletedSuccessfully,
        BatchCommandStatus::CompletedWithErrors,
        BatchCommandStatus::Terminating,
        BatchCommandStatus::Terminated,
        BatchCommandStatus::FailedToDispatch,
    ];
    for s in all {
        assert_eq!(BatchCommandStatus::from_db_value(s.db_value()), Some(s));
    }
    assert_eq!(BatchCommandStatus::CompletedWithErrors.db_value(), "COMPLETED_WITH_ERRORS");
    assert_eq!(BatchCommandStatus::CompletedWithErrors.name(), "CompletedWithErrors");
    assert_eq!(BatchCommandStatus::from_db_value("completed"), None);
    assert_eq!(ChildCommandStatus::AgentUnreachable.db_value(), "AGENT_UNREACHABLE");
    assert_eq!(ChildCommandStatus::AgentUnreachable.name(), "AgentUnreachable");
    assert_eq!(ChildCommandStatus::from_db_value("TIMED_OUT"), Some(ChildCommandStatus::TimedOut));
}
