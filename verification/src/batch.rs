//! Batch command tasks: the status vocabulary of a batch and of its child
//! tasks, request validation, how a batch's status follows from its children,
//! termination decisions and the bookkeeping of child output logs.

use vstd::prelude::*;
use crate::text::{str_eq, string_from_chars, chars_of};

verus! {

/// Overall status of a batch command task.
#[derive(Clone, Copy, Debug, PartialEq, Eq, Structural)]
pub enum BatchCommandStatus {
    Pending,
    Dispatching,
    Executing,
    CompletedSuccessfully,
    CompletedWithErrors,
    Terminating,
    Terminated,
    FailedToDispatch,
}

/// Status of one child task, i.e. the command on one VPS.
#[derive(Clone, Copy, Debug, PartialEq, Eq, Structural)]
pub enum ChildCommandStatus {
    Pending,
    SentToAgent,
    AgentAccepted,
    Executing,
    CompletedSuccessfully,
    CompletedWithFailure,
    Terminating,
    Terminated,
    AgentUnreachable,
    TimedOut,
    AgentError,
}

/// Which output stream a chunk of command output came from.
#[derive(Clone, Copy, Debug, PartialEq, Eq, Structural)]
pub enum OutputStream {
    Unspecified,
    Stdout,
    Stderr,
}

/// A batch status in which the batch no longer changes.
pub open spec fn batch_is_final(s: BatchCommandStatus) -> bool {
    s == BatchCommandStatus::CompletedSuccessfully || s == BatchCommandStatus::CompletedWithErrors
        || s == BatchCommandStatus::Terminated
}

/// A child status in which the child task has finished, one way or another.
pub open spec fn child_is_final(s: ChildCommandStatus) -> bool {
    match s {
        ChildCommandStatus::CompletedSuccessfully | ChildCommandStatus::CompletedWithFailure
        | ChildCommandStatus::Terminated | ChildCommandStatus::AgentUnreachable
        | ChildCommandStatus::TimedOut | ChildCommandStatus::AgentError => true,
        _ => false,
    }
}

/// A child status from which the child can still be terminated.
pub open spec fn child_is_active(s: ChildCommandStatus) -> bool {
    match s {
        ChildCommandStatus::Pending | ChildCommandStatus::SentToAgent
        | ChildCommandStatus::AgentAccepted | ChildCommandStatus::Executing => true,
        _ => false,
    }
}

/// A final child status that counts as a failure for the batch.
pub open spec fn child_is_failure(s: ChildCommandStatus) -> bool {
    match s {
        ChildCommandStatus::CompletedWithFailure | ChildCommandStatus::AgentError
        | ChildCommandStatus::AgentUnreachable | ChildCommandStatus::TimedOut => true,
        _ => false,
    }
}

pub open spec fn all_children_final(children: Seq<ChildCommandStatus>) -> bool {
    forall|i: int| 0 <= i < children.len() ==> child_is_final(#[trigger] children[i])
}

pub open spec fn any_child_failed(children: Seq<ChildCommandStatus>) -> bool {
    exists|i: int| 0 <= i < children.len() && child_is_failure(#[trigger] children[i])
}

pub open spec fn any_child_terminated(children: Seq<ChildCommandStatus>) -> bool {
    exists|i: int| 0 <= i < children.len() && #[trigger] children[i] == ChildCommandStatus::Terminated
}

/// The status a batch moves to once its children report: nothing while a
/// child is still running, while there are no children, or once the batch is
/// final; otherwise `Terminated` when some child was terminated and none
/// failed, `CompletedWithErrors` when some child failed, and
/// `CompletedSuccessfully` when every child succeeded.
pub open spec fn spec_next_batch_status(
    parent: BatchCommandStatus,
    children: Seq<ChildCommandStatus>,
) -> Option<BatchCommandStatus> {
    if children.len() == 0 || !all_children_final(children) || batch_is_final(parent) {
        None
    } else if any_child_terminated(children) && !any_child_failed(children) {
        Some(BatchCommandStatus::Terminated)
    } else if any_child_failed(children) {
        Some(BatchCommandStatus::CompletedWithErrors)
    } else {
        Some(BatchCommandStatus::CompletedSuccessfully)
    }
}

impl BatchCommandStatus {
    /// Whether the batch has reached a final status.
    pub fn is_final(&self) -> (r: bool)
        ensures
            r == batch_is_final(*self),
    {
        match self {
            BatchCommandStatus::CompletedSuccessfully | BatchCommandStatus::CompletedWithErrors
            | BatchCommandStatus::Terminated => true,
            _ => false,
        }
    }
}

impl ChildCommandStatus {
    /// Whether the child task has finished.
    pub fn is_final(&self) -> (r: bool)
        ensures
            r == child_is_final(*self),
    {
        match self {
            ChildCommandStatus::CompletedSuccessfully | ChildCommandStatus::CompletedWithFailure
            | ChildCommandStatus::Terminated | ChildCommandStatus::AgentUnreachable
            | ChildCommandStatus::TimedOut | ChildCommandStatus::AgentError => true,
            _ => false,
        }
    }

    /// Whether the child task can still be terminated.
    pub fn is_active(&self) -> (r: bool)
        ensures
            r == child_is_active(*self),
    {
        match self {
            ChildCommandStatus::Pending | ChildCommandStatus::SentToAgent
            | ChildCommandStatus::AgentAccepted | ChildCommandStatus::Executing => true,
            _ => false,
        }
    }

    /// Whether the child task finished as a failure.
    pub fn is_failure(&self) -> (r: bool)
        ensures
            r == child_is_failure(*self),
    {
        match self {
            ChildCommandStatus::CompletedWithFailure | ChildCommandStatus::AgentError
            | ChildCommandStatus::AgentUnreachable | ChildCommandStatus::TimedOut => true,
            _ => false,
        }
    }
}

/// The status the batch moves to after a child update, or `None` when it
/// keeps its status.
pub fn next_batch_status(
    parent: BatchCommandStatus,
    children: &Vec<ChildCommandStatus>,
) -> (r: Option<BatchCommandStatus>)
    ensures
        r == spec_next_batch_status(parent, children@),
{
    if children.len() == 0 {
        return None;
    }
    let mut any_failed = false;
    let mut any_terminated = false;
    let mut i: usize = 0;
    while i < children.len()
        invariant
            i <= children.len(),
            forall|j: int| 0 <= j < i ==> child_is_final(#[trigger] children@[j]),
            any_failed == (exists|j: int| 0 <= j < i && child_is_failure(#[trigger] children@[j])),
            any_terminated == (exists|j: int|
                0 <= j < i && #[trigger] children@[j] == ChildCommandStatus::Terminated),
        decreases children.len() - i,
    {
        let c = children[i];
        if !c.is_final() {
            return None;
        }
        if c.is_failure() {
            any_failed = true;
        }
        if c == ChildCommandStatus::Terminated {
            any_terminated = true;
        }
        i = i + 1;
    }
    assert(all_children_final(children@));
    assert(any_failed == any_child_failed(children@));
    assert(any_terminated == any_child_terminated(children@));
    if parent.is_final() {
        return None;
    }
    if any_terminated && !any_failed {
        Some(BatchCommandStatus::Terminated)
    } else if any_failed {
        Some(BatchCommandStatus::CompletedWithErrors)
    } else {
        Some(BatchCommandStatus::CompletedSuccessfully)
    }
}

/// A status the batch moves to after its children report is a final one.
pub proof fn lemma_next_batch_status_is_final(
    parent: BatchCommandStatus,
    children: Seq<ChildCommandStatus>,
)
    ensures
        spec_next_batch_status(parent, children) matches Some(s) ==> batch_is_final(s),
{
}

/// Once a batch has moved on, the same child statuses move it no further.
pub proof fn lemma_next_batch_status_settles(
    parent: BatchCommandStatus,
    children: Seq<ChildCommandStatus>,
)
    ensures
        spec_next_batch_status(parent, children) matches Some(s) ==> spec_next_batch_status(
            s,
            children,
        ) is None,
{
}

/// While any child is still active the batch keeps its status.
pub proof fn lemma_active_child_blocks_completion(
    parent: BatchCommandStatus,
    children: Seq<ChildCommandStatus>,
    k: int,
)
    requires
        0 <= k < children.len(),
        child_is_active(children[k]) || children[k] == ChildCommandStatus::Terminating,
    ensures
        spec_next_batch_status(parent, children) is None,
{
    assert(!child_is_final(children[k]));
}

/// A batch is reported as terminated only when no child failed, and as
/// completed successfully only when every child succeeded.
pub proof fn lemma_batch_outcome_matches_children(
    parent: BatchCommandStatus,
    children: Seq<ChildCommandStatus>,
)
    ensures
        spec_next_batch_status(parent, children) == Some(BatchCommandStatus::Terminated)
            ==> !any_child_failed(children),
        spec_next_batch_status(parent, children) == Some(BatchCommandStatus::CompletedSuccessfully)
            ==> forall|i: int|
            0 <= i < children.len() ==> #[trigger] children[i]
                == ChildCommandStatus::CompletedSuccessfully,
{
    if spec_next_batch_status(parent, children) == Some(BatchCommandStatus::CompletedSuccessfully) {
        assert forall|i: int| 0 <= i < children.len() implies #[trigger] children[i]
            == ChildCommandStatus::CompletedSuccessfully by {
            assert(child_is_final(children[i]));
            if children[i] == ChildCommandStatus::Terminated {
                assert(any_child_terminated(children));
            }
            if child_is_failure(children[i]) {
                assert(any_child_failed(children));
            }
        }
    }
}


/// Errors of the batch command service.
#[derive(Debug)]
pub enum BatchCommandServiceError {
    DbErr(String),
    ValidationError(String),
    CreationFailed(String),
    NotFound(u128),
    Unauthorized,
    TaskNotTerminable,
}

/// API request to run one command (or saved script) on several VPS.
#[derive(Debug, Clone)]
pub struct CreateBatchCommandRequest {
    pub command_content: Option<String>,
    pub script_id: Option<String>,
    pub working_directory: Option<String>,
    pub target_vps_ids: Vec<String>,
    pub execution_alias: Option<String>,
}

/// The message of the validation error that a request draws, if any.
pub open spec fn spec_batch_request_error(
    has_content: bool,
    has_script: bool,
    target_count: nat,
) -> Option<Seq<char>> {
    if !has_content && !has_script {
        Some("Either command_content or script_id must be provided."@)
    } else if has_content && has_script {
        Some("Provide either command_content or script_id, not both."@)
    } else if target_count == 0 {
        Some("At least one target_vps_id must be provided."@)
    } else {
        None
    }
}

/// Checks a batch request: exactly one of command content and script id, and
/// at least one target VPS.
pub fn validate_batch_request(req: &CreateBatchCommandRequest) -> (r: Result<(), BatchCommandServiceError>)
    ensures
        match spec_batch_request_error(
            req.command_content is Some,
            req.script_id is Some,
            req.target_vps_ids@.len(),
        ) {
            None => r is Ok,
            Some(msg) => r matches Err(BatchCommandServiceError::ValidationError(m)) && m@ == msg,
        },
{
    if req.command_content.is_none() && req.script_id.is_none() {
        return Err(BatchCommandServiceError::ValidationError(
            "Either command_content or script_id must be provided.".to_string(),
        ));
    }
    if req.command_content.is_some() && req.script_id.is_some() {
        return Err(BatchCommandServiceError::ValidationError(
            "Provide either command_content or script_id, not both.".to_string(),
        ));
    }
    if req.target_vps_ids.len() == 0 {
        return Err(BatchCommandServiceError::ValidationError(
            "At least one target_vps_id must be provided.".to_string(),
        ));
    }
    Ok(())
}

/// How a command is handed to an agent.
#[derive(Clone, Copy, Debug, PartialEq, Eq, Structural)]
pub enum CommandKind {
    AdhocCommand,
    SavedScript,
}

/// The kind of command a request dispatches and the text sent to each agent:
/// a saved script when a script id is given, and then the script id itself
/// when the command content is missing or empty.
pub open spec fn spec_dispatch_plan(
    content: Option<Seq<char>>,
    script: Option<Seq<char>>,
) -> (CommandKind, Seq<char>) {
    let c = match content {
        Some(c) => c,
        None => Seq::<char>::empty(),
    };
    match script {
        Some(id) => (CommandKind::SavedScript, if c.len() == 0 { id } else { c }),
        None => (CommandKind::AdhocCommand, c),
    }
}

pub open spec fn opt_view(o: Option<String>) -> Option<Seq<char>> {
    match o {
        Some(s) => Some(s@),
        None => None,
    }
}

/// The command kind and effective command text for a batch request.
pub fn dispatch_plan(req: &CreateBatchCommandRequest) -> (r: (CommandKind, String))
    ensures
        (r.0, r.1@) == spec_dispatch_plan(opt_view(req.command_content), opt_view(req.script_id)),
{
    let content: String = match &req.command_content {
        Some(c) => c.clone(),
        None => String::new(),
    };
    match &req.script_id {
        Some(id) => {
            if content.as_str().is_empty() {
                (CommandKind::SavedScript, id.clone())
            } else {
                (CommandKind::SavedScript, content)
            }
        },
        None => (CommandKind::AdhocCommand, content),
    }
}


/// The child status recorded after dispatching a child command, and the error
/// kept with it: `SentToAgent` on success, `AgentUnreachable` with the
/// dispatcher's message on failure.
pub fn status_after_dispatch(result: Result<(), String>) -> (r: (ChildCommandStatus, Option<String>))
    ensures
        match result {
            Ok(()) => r.0 == ChildCommandStatus::SentToAgent && r.1 is None,
            Err(e) => r.0 == ChildCommandStatus::AgentUnreachable && r.1 == Some(e),
        },
{
    match result {
        Ok(()) => (ChildCommandStatus::SentToAgent, None),
        Err(e) => (ChildCommandStatus::AgentUnreachable, Some(e)),
    }
}

/// What the service knows of a batch task when deciding on it.
#[derive(Clone, Copy, Debug)]
pub struct BatchTaskRef {
    pub batch_command_id: u128,
    pub user_id: i32,
    pub status: BatchCommandStatus,
}

/// What the service knows of a child task when deciding on it.
#[derive(Clone, Copy, Debug)]
pub struct ChildTaskRef {
    pub child_command_id: u128,
    pub batch_command_id: u128,
    pub status: ChildCommandStatus,
}

/// The ids of the children of `batch` that are still active, in order.
pub open spec fn active_child_ids(batch: u128, children: Seq<ChildTaskRef>) -> Seq<u128>
    decreases children.len(),
{
    if children.len() == 0 {
        Seq::empty()
    } else {
        let rest = active_child_ids(batch, children.drop_last());
        let c = children.last();
        if c.batch_command_id == batch && child_is_active(c.status) {
            rest.push(c.child_command_id)
        } else {
            rest
        }
    }
}

/// An id is selected for termination exactly when some child of the list
/// with that id belongs to the batch and is still active (pending, sent to
/// its agent, accepted by it, or executing).
pub proof fn lemma_active_child_ids_members(batch: u128, children: Seq<ChildTaskRef>)
    ensures
        forall|x: u128| #![trigger active_child_ids(batch, children).contains(x)]
            active_child_ids(batch, children).contains(x) <==> exists|i: int|
                0 <= i < children.len() && (#[trigger] children[i]).child_command_id == x
                    && children[i].batch_command_id == batch && child_is_active(children[i].status),
    decreases children.len(),
{
    if children.len() > 0 {
        let init = children.drop_last();
        lemma_active_child_ids_members(batch, init);
        let c = children.last();
        assert forall|x: u128| active_child_ids(batch, children).contains(x) <==> exists|i: int|
            0 <= i < children.len() && (#[trigger] children[i]).child_command_id == x
                && children[i].batch_command_id == batch && child_is_active(children[i].status) by {
            let rest = active_child_ids(batch, init);
            if active_child_ids(batch, children).contains(x) {
                if rest.contains(x) {
                    let i = choose|i: int| 0 <= i < init.len() && (#[trigger] init[i]).child_command_id == x
                        && init[i].batch_command_id == batch && child_is_active(init[i].status);
                    assert(children[i] == init[i]);
                } else {
                    let k = choose|k: int| 0 <= k < active_child_ids(batch, children).len()
                        && active_child_ids(batch, children)[k] == x;
                    if c.batch_command_id == batch && child_is_active(c.status) {
                        if k < rest.len() {
                            assert(rest[k] == x);
                        }
                        assert(children[children.len() - 1] == c);
                    } else {
                        assert(rest[k] == x);
                    }
                }
            }
            if exists|i: int| 0 <= i < children.len() && (#[trigger] children[i]).child_command_id == x
                && children[i].batch_command_id == batch && child_is_active(children[i].status) {
                let i = choose|i: int| 0 <= i < children.len() && (#[trigger] children[i]).child_command_id == x
                    && children[i].batch_command_id == batch && child_is_active(children[i].status);
                if i == children.len() - 1 {
                    let out = rest.push(c.child_command_id);
                    assert(out[out.len() - 1] == x);
                } else {
                    assert(init[i] == children[i]);
                    assert(rest.contains(x));
                    let k = choose|k: int| 0 <= k < rest.len() && rest[k] == x;
                    if c.batch_command_id == batch && child_is_active(c.status) {
                        assert(rest.push(c.child_command_id)[k] == x);
                    }
                }
            }
        }
    }
}

/// When child ids are distinct, a child of the batch is selected for
/// termination exactly when a request to terminate that child alone would
/// be accepted: when it is pending, sent to its agent, accepted by it, or
/// executing.
pub proof fn lemma_batch_termination_matches_child_termination(
    batch: u128,
    children: Seq<ChildTaskRef>,
    i: int,
)
    requires
        0 <= i < children.len(),
        children[i].batch_command_id == batch,
        forall|j: int, k: int| 0 <= j < k < children.len() ==> children[j].child_command_id != children[k].child_command_id,
    ensures
        active_child_ids(batch, children).contains(children[i].child_command_id) <==> (
            children[i].status == ChildCommandStatus::Pending || children[i].status == ChildCommandStatus::SentToAgent
                || children[i].status == ChildCommandStatus::AgentAccepted
                || children[i].status == ChildCommandStatus::Executing),
{
    lemma_active_child_ids_members(batch, children);
    let x = children[i].child_command_id;
    if active_child_ids(batch, children).contains(x) {
        let j = choose|j: int| 0 <= j < children.len() && (#[trigger] children[j]).child_command_id == x
            && children[j].batch_command_id == batch && child_is_active(children[j].status);
        assert(j == i);
    } else {
        assert(!child_is_active(children[i].status));
    }
}

/// The outcome of a termination request on a whole batch.
#[derive(Debug)]
pub struct TerminationPlan {
    /// Whether the batch itself is to be marked `Terminating`.
    pub mark_batch_terminating: bool,
    /// The children to mark `Terminating` and to signal, in order.
    pub children_to_terminate: Vec<u128>,
}

/// Decides a request to terminate a batch: `NotFound` for an unknown batch,
/// `Unauthorized` for another user's batch, nothing to do for a batch that is
/// already final, and otherwise the batch and all of its active children are
/// terminated.
pub fn plan_batch_termination(
    batch_command_id: u128,
    task: Option<BatchTaskRef>,
    requesting_user_id: i32,
    children: &Vec<ChildTaskRef>,
) -> (r: Result<TerminationPlan, BatchCommandServiceError>)
    ensures
        match task {
            None => r matches Err(BatchCommandServiceError::NotFound(id)) && id == batch_command_id,
            Some(t) => if t.user_id != requesting_user_id {
                r matches Err(BatchCommandServiceError::Unauthorized)
            } else if batch_is_final(t.status) {
                r matches Ok(p) && !p.mark_batch_terminating && p.children_to_terminate@.len() == 0
            } else {
                r matches Ok(p) && p.mark_batch_terminating && p.children_to_terminate@
                    == active_child_ids(batch_command_id, children@) && forall|x: u128|
                    #![trigger p.children_to_terminate@.contains(x)]
                    p.children_to_terminate@.contains(x) <==> exists|i: int|
                        0 <= i < children@.len() && (#[trigger] children@[i]).child_command_id == x
                            && children@[i].batch_command_id == batch_command_id && (children@[i].status
                            == ChildCommandStatus::Pending || children@[i].status == ChildCommandStatus::SentToAgent
                            || children@[i].status == ChildCommandStatus::AgentAccepted
                            || children@[i].status == ChildCommandStatus::Executing)
            },
        },
{
    let t = match task {
        None => return Err(BatchCommandServiceError::NotFound(batch_command_id)),
        Some(t) => t,
    };
    if t.user_id != requesting_user_id {
        return Err(BatchCommandServiceError::Unauthorized);
    }
    if t.status.is_final() {
        return Ok(TerminationPlan { mark_batch_terminating: false, children_to_terminate: Vec::new() });
    }
    let mut ids: Vec<u128> = Vec::new();
    let mut i: usize = 0;
    while i < children.len()
        invariant
            i <= children.len(),
            ids@ == active_child_ids(batch_command_id, children@.take(i as int)),
        decreases children.len() - i,
    {
        let c = children[i];
        assert(children@.take(i + 1).drop_last() =~= children@.take(i as int));
        if c.batch_command_id == batch_command_id && c.status.is_active() {
            ids.push(c.child_command_id);
        }
        i = i + 1;
    }
    assert(children@.take(i as int) =~= children@);
    proof {
        lemma_active_child_ids_members(batch_command_id, children@);
    }
    Ok(TerminationPlan { mark_batch_terminating: true, children_to_terminate: ids })
}

/// Decides a request to terminate one child task: `NotFound` when its batch
/// is unknown, `Unauthorized` for another user's batch, `TaskNotTerminable`
/// when the child is no longer active.
pub fn check_child_termination(
    child: ChildTaskRef,
    parent_owner: Option<i32>,
    requesting_user_id: i32,
) -> (r: Result<(), BatchCommandServiceError>)
    ensures
        match parent_owner {
            None => r matches Err(BatchCommandServiceError::NotFound(id)) && id == child.batch_command_id,
            Some(owner) => if owner != requesting_user_id {
                r matches Err(BatchCommandServiceError::Unauthorized)
            } else if !child_is_active(child.status) {
                r matches Err(BatchCommandServiceError::TaskNotTerminable)
            } else {
                r is Ok
            },
        },
        parent_owner == Some(requesting_user_id) ==> (r is Ok <==> (child.status == ChildCommandStatus::Pending
            || child.status == ChildCommandStatus::SentToAgent || child.status == ChildCommandStatus::AgentAccepted
            || child.status == ChildCommandStatus::Executing)),
{
    match parent_owner {
        None => Err(BatchCommandServiceError::NotFound(child.batch_command_id)),
        Some(owner) => {
            if owner != requesting_user_id {
                Err(BatchCommandServiceError::Unauthorized)
            } else if !child.status.is_active() {
                Err(BatchCommandServiceError::TaskNotTerminable)
            } else {
                Ok(())
            }
        },
    }
}

/// Decides access to a batch's details: `Ok(false)` when there is no such
/// batch (there is nothing to show), `Unauthorized` for another user's
/// batch, and `Ok(true)` for the user's own.
pub fn check_batch_detail_access(owner: Option<i32>, requesting_user_id: i32) -> (r: Result<bool, BatchCommandServiceError>)
    ensures
        owner is None ==> r matches Ok(false),
        owner matches Some(o) && o != requesting_user_id ==> r matches Err(BatchCommandServiceError::Unauthorized),
        owner == Some(requesting_user_id) ==> r matches Ok(true),
{
    match owner {
        None => Ok(false),
        Some(o) => {
            if o != requesting_user_id {
                Err(BatchCommandServiceError::Unauthorized)
            } else {
                Ok(true)
            }
        },
    }
}

/// The fields of a child task that a status report changes.
#[derive(Debug)]
pub struct ChildTaskState {
    pub status: ChildCommandStatus,
    pub exit_code: Option<i32>,
    pub error_message: Option<String>,
    pub agent_completed_at: Option<i64>,
    pub updated_at: i64,
}

/// Applies a status report to a child task: the status is replaced, the exit
/// code and error message only when the report carries them, and the
/// completion time is set to `now` when the new status is final and no
/// completion time was recorded yet.
pub fn apply_child_status_update(
    state: ChildTaskState,
    new_status: ChildCommandStatus,
    exit_code: Option<i32>,
    error_message: Option<String>,
    now: i64,
) -> (r: ChildTaskState)
    ensures
        r.status == new_status,
        r.exit_code == (if exit_code is Some { exit_code } else { state.exit_code }),
        r.error_message == (if error_message is Some { error_message } else { state.error_message }),
        r.agent_completed_at == (if child_is_final(new_status) && state.agent_completed_at is None {
            Some(now)
        } else {
            state.agent_completed_at
        }),
        r.updated_at == now,
{
    let ChildTaskState { status: _, exit_code: old_exit, error_message: old_err, agent_completed_at, updated_at: _ } = state;
    let exit = if exit_code.is_some() { exit_code } else { old_exit };
    let err = if error_message.is_some() { error_message } else { old_err };
    let completed = if new_status.is_final() && agent_completed_at.is_none() {
        Some(now)
    } else {
        agent_completed_at
    };
    ChildTaskState {
        status: new_status,
        exit_code: exit,
        error_message: err,
        agent_completed_at: completed,
        updated_at: now,
    }
}

/// Once a child has a completion time, later reports keep it.
pub proof fn lemma_completion_time_is_kept(completed: Option<i64>, new_status: ChildCommandStatus, now: i64)
    requires
        completed is Some,
    ensures
        (if child_is_final(new_status) && completed is None { Some(now) } else { completed }) == completed,
{
}

/// The log file that a stream's output is appended to.
pub open spec fn spec_log_file_name(stream: OutputStream) -> Seq<char> {
    match stream {
        OutputStream::Stdout => "stdout.log"@,
        OutputStream::Stderr => "stderr.log"@,
        OutputStream::Unspecified => "output.log"@,
    }
}

/// The label under which output of a stream is broadcast.
pub open spec fn spec_output_label(stream: OutputStream) -> Seq<char> {
    match stream {
        OutputStream::Stdout => "stdout"@,
        OutputStream::Stderr => "stderr"@,
        OutputStream::Unspecified => "unspecified"@,
    }
}

/// The log file that a stream's output is appended to.
pub fn log_file_name(stream: OutputStream) -> (r: &'static str)
    ensures
        r@ == spec_log_file_name(stream),
{
    match stream {
        OutputStream::Stdout => "stdout.log",
        OutputStream::Stderr => "stderr.log",
        OutputStream::Unspecified => "output.log",
    }
}

/// The label under which output of a stream is broadcast.
pub fn output_type_label(stream: OutputStream) -> (r: &'static str)
    ensures
        r@ == spec_output_label(stream),
{
    match stream {
        OutputStream::Stdout => "stdout",
        OutputStream::Stderr => "stderr",
        OutputStream::Unspecified => "unspecified",
    }
}

/// Which log path columns a chunk of output fills in: the stdout path for
/// stdout output when none is recorded, likewise for stderr, and none for
/// unspecified output.
pub fn log_path_updates(stream: OutputStream, has_stdout_path: bool, has_stderr_path: bool) -> (r: (
    bool,
    bool,
))
    ensures
        r.0 == (stream == OutputStream::Stdout && !has_stdout_path),
        r.1 == (stream == OutputStream::Stderr && !has_stderr_path),
{
    match stream {
        OutputStream::Stdout => (!has_stdout_path, false),
        OutputStream::Stderr => (false, !has_stderr_path),
        OutputStream::Unspecified => (false, false),
    }
}

/// The lower-case hexadecimal digit of a value below 16.
pub open spec fn hex_digit(d: nat) -> char {
    if d < 10 {
        (48 + d) as char
    } else {
        (87 + d) as char
    }
}

/// The `count` low-order hexadecimal digits of `n`, most significant first.
pub open spec fn hex_digits(n: nat, count: nat) -> Seq<char>
    decreases count,
{
    if count == 0 {
        Seq::empty()
    } else {
        hex_digits(n / 16, (count - 1) as nat).push(hex_digit(n % 16))
    }
}

/// The hyphenated lower-case text of a UUID, as `uuid::Uuid`'s `Display`
/// writes it: its 32 hexadecimal digits (big-endian) in groups of 8, 4, 4, 4
/// and 12, joined by `-`.
pub open spec fn uuid_hyphenated_text(id: u128) -> Seq<char> {
    let h = hex_digits(id as nat, 32);
    h.subrange(0, 8) + "-"@ + h.subrange(8, 12) + "-"@ + h.subrange(12, 16) + "-"@ + h.subrange(16, 20)
        + "-"@ + h.subrange(20, 32)
}

/// Calls `uuid::Uuid::from_u128` and formats the UUID with its `Display`
/// impl. The contract claims what the uuid crate's source shows:
/// `from_u128` takes the bytes big-endian and `Display` writes the
/// lower-case hyphenated form, 36 characters long.
#[verifier::external_body]
pub(crate) fn uuid_text(id: u128) -> (s: String)
    ensures
        s@ == uuid_hyphenated_text(id),
        s@.len() == 36,
{
    uuid::Uuid::from_u128(id).to_string()
}

/// The path of the log file for a child task's stream:
/// `logs/batch_commands/<batch id>/<child id>/<file>`.
pub open spec fn spec_child_log_path(batch: u128, child: u128, stream: OutputStream) -> Seq<char> {
    "logs/batch_commands/"@ + uuid_hyphenated_text(batch) + "/"@ + uuid_hyphenated_text(child) + "/"@
        + spec_log_file_name(stream)
}

/// The path of the log file for a child task's stream.
pub fn child_log_path(batch_command_id: u128, child_command_id: u128, stream: OutputStream) -> (r: String)
    ensures
        r@ == spec_child_log_path(batch_command_id, child_command_id, stream),
{
    let mut v = chars_of("logs/batch_commands/");
    let b = uuid_text(batch_command_id);
    let c = uuid_text(child_command_id);
    let mut bc = chars_of(b.as_str());
    let mut sep1 = chars_of("/");
    let mut cc = chars_of(c.as_str());
    let mut sep2 = chars_of("/");
    let mut f = chars_of(log_file_name(stream));
    v.append(&mut bc);
    v.append(&mut sep1);
    v.append(&mut cc);
    v.append(&mut sep2);
    v.append(&mut f);
    string_from_chars(&v)
}

/// The name that `Display` writes for a batch status (the variant's name).
pub open spec fn spec_batch_status_name(s: BatchCommandStatus) -> Seq<char> {
    match s {
        BatchCommandStatus::Pending => "Pending"@,
        BatchCommandStatus::Dispatching => "Dispatching"@,
        BatchCommandStatus::Executing => "Executing"@,
        BatchCommandStatus::CompletedSuccessfully => "CompletedSuccessfully"@,
        BatchCommandStatus::CompletedWithErrors => "CompletedWithErrors"@,
        BatchCommandStatus::Terminating => "Terminating"@,
        BatchCommandStatus::Terminated => "Terminated"@,
        BatchCommandStatus::FailedToDispatch => "FailedToDispatch"@,
    }
}

/// The text stored in the database for a batch status.
pub open spec fn spec_batch_status_db_value(s: BatchCommandStatus) -> Seq<char> {
    match s {
        BatchCommandStatus::Pending => "PENDING"@,
        BatchCommandStatus::Dispatching => "DISPATCHING"@,
        BatchCommandStatus::Executing => "EXECUTING"@,
        BatchCommandStatus::CompletedSuccessfully => "COMPLETED_SUCCESSFULLY"@,
        BatchCommandStatus::CompletedWithErrors => "COMPLETED_WITH_ERRORS"@,
        BatchCommandStatus::Terminating => "TERMINATING"@,
        BatchCommandStatus::Terminated => "TERMINATED"@,
        BatchCommandStatus::FailedToDispatch => "FAILED_TO_DISPATCH"@,
    }
}

impl BatchCommandStatus {
    /// The name that `Display` writes for this status.
    pub fn name(&self) -> (r: &'static str)
        ensures
            r@ == spec_batch_status_name(*self),
    {
        match self {
            BatchCommandStatus::Pending => "Pending",
            BatchCommandStatus::Dispatching => "Dispatching",
            BatchCommandStatus::Executing => "Executing",
            BatchCommandStatus::CompletedSuccessfully => "CompletedSuccessfully",
            BatchCommandStatus::CompletedWithErrors => "CompletedWithErrors",
            BatchCommandStatus::Terminating => "Terminating",
            BatchCommandStatus::Terminated => "Terminated",
            BatchCommandStatus::FailedToDispatch => "FailedToDispatch",
        }
    }

    /// The text stored in the database for this status.
    pub fn db_value(&self) -> (r: &'static str)
        ensures
            r@ == spec_batch_status_db_value(*self),
    {
        match self {
            BatchCommandStatus::Pending => "PENDING",
            BatchCommandStatus::Dispatching => "DISPATCHING",
            BatchCommandStatus::Executing => "EXECUTING",
            BatchCommandStatus::CompletedSuccessfully => "COMPLETED_SUCCESSFULLY",
            BatchCommandStatus::CompletedWithErrors => "COMPLETED_WITH_ERRORS",
            BatchCommandStatus::Terminating => "TERMINATING",
            BatchCommandStatus::Terminated => "TERMINATED",
            BatchCommandStatus::FailedToDispatch => "FAILED_TO_DISPATCH",
        }
    }

    /// The status stored in the database as `s`, if any.
    pub fn from_db_value(s: &str) -> (r: Option<BatchCommandStatus>)
        ensures
            match r {
                Some(st) => spec_batch_status_db_value(st) == s@,
                None => forall|st: BatchCommandStatus| spec_batch_status_db_value(st) != s@,
            },
    {
        if str_eq(s, "PENDING") {
            return Some(BatchCommandStatus::Pending);
        }
        if str_eq(s, "DISPATCHING") {
            return Some(BatchCommandStatus::Dispatching);
        }
        if str_eq(s, "EXECUTING") {
            return Some(BatchCommandStatus::Executing);
        }
        if str_eq(s, "COMPLETED_SUCCESSFULLY") {
            return Some(BatchCommandStatus::CompletedSuccessfully);
        }
        if str_eq(s, "COMPLETED_WITH_ERRORS") {
            return Some(BatchCommandStatus::CompletedWithErrors);
        }
        if str_eq(s, "TERMINATING") {
            return Some(BatchCommandStatus::Terminating);
        }
        if str_eq(s, "TERMINATED") {
            return Some(BatchCommandStatus::Terminated);
        }
        if str_eq(s, "FAILED_TO_DISPATCH") {
            return Some(BatchCommandStatus::FailedToDispatch);
        }
        proof {
            assert forall|st: BatchCommandStatus| spec_batch_status_db_value(st) != s@ by {
                match st {
                    BatchCommandStatus::Pending => {},
                    BatchCommandStatus::Dispatching => {},
                    BatchCommandStatus::Executing => {},
                    BatchCommandStatus::CompletedSuccessfully => {},
                    BatchCommandStatus::CompletedWithErrors => {},
                    BatchCommandStatus::Terminating => {},
                    BatchCommandStatus::Terminated => {},
                    BatchCommandStatus::FailedToDispatch => {},
                }
            }
        }
        None
    }
}

/// The name that `Display` writes for a child status (the variant's name).
pub open spec fn spec_child_status_name(s: ChildCommandStatus) -> Seq<char> {
    match s {
        ChildCommandStatus::Pending => "Pending"@,
        ChildCommandStatus::SentToAgent => "SentToAgent"@,
        ChildCommandStatus::AgentAccepted => "AgentAccepted"@,
        ChildCommandStatus::Executing => "Executing"@,
        ChildCommandStatus::CompletedSuccessfully => "CompletedSuccessfully"@,
        ChildCommandStatus::CompletedWithFailure => "CompletedWithFailure"@,
        ChildCommandStatus::Terminating => "Terminating"@,
        ChildCommandStatus::Terminated => "Terminated"@,
        ChildCommandStatus::AgentUnreachable => "AgentUnreachable"@,
        ChildCommandStatus::TimedOut => "TimedOut"@,
        ChildCommandStatus::AgentError => "AgentError"@,
    }
}

/// The text stored in the database for a child status.
pub open spec fn spec_child_status_db_value(s: ChildCommandStatus) -> Seq<char> {
    match s {
        ChildCommandStatus::Pending => "PENDING"@,
        ChildCommandStatus::SentToAgent => "SENT_TO_AGENT"@,
        ChildCommandStatus::AgentAccepted => "AGENT_ACCEPTED"@,
        ChildCommandStatus::Executing => "EXECUTING"@,
        ChildCommandStatus::CompletedSuccessfully => "COMPLETED_SUCCESSFULLY"@,
        ChildCommandStatus::CompletedWithFailure => "COMPLETED_WITH_FAILURE"@,
        ChildCommandStatus::Terminating => "TERMINATING"@,
        ChildCommandStatus::Terminated => "TERMINATED"@,
        ChildCommandStatus::AgentUnreachable => "AGENT_UNREACHABLE"@,
        ChildCommandStatus::TimedOut => "TIMED_OUT"@,
        ChildCommandStatus::AgentError => "AGENT_ERROR"@,
    }
}

impl ChildCommandStatus {
    /// The name that `Display` writes for this status.
    pub fn name(&self) -> (r: &'static str)
        ensures
            r@ == spec_child_status_name(*self),
    {
        match self {
            ChildCommandStatus::Pending => "Pending",
            ChildCommandStatus::SentToAgent => "SentToAgent",
            ChildCommandStatus::AgentAccepted => "AgentAccepted",
            ChildCommandStatus::Executing => "Executing",
            ChildCommandStatus::CompletedSuccessfully => "CompletedSuccessfully",
            ChildCommandStatus::CompletedWithFailure => "CompletedWithFailure",
            ChildCommandStatus::Terminating => "Terminating",
            ChildCommandStatus::Terminated => "Terminated",
            ChildCommandStatus::AgentUnreachable => "AgentUnreachable",
            ChildCommandStatus::TimedOut => "TimedOut",
            ChildCommandStatus::AgentError => "AgentError",
        }
    }

    /// The text stored in the database for this status.
    pub fn db_value(&self) -> (r: &'static str)
        ensures
            r@ == spec_child_status_db_value(*self),
    {
        match self {
            ChildCommandStatus::Pending => "PENDING",
            ChildCommandStatus::SentToAgent => "SENT_TO_AGENT",
            ChildCommandStatus::AgentAccepted => "AGENT_ACCEPTED",
            ChildCommandStatus::Executing => "EXECUTING",
            ChildCommandStatus::CompletedSuccessfully => "COMPLETED_SUCCESSFULLY",
            ChildCommandStatus::CompletedWithFailure => "COMPLETED_WITH_FAILURE",
            ChildCommandStatus::Terminating => "TERMINATING",
            ChildCommandStatus::Terminated => "TERMINATED",
            ChildCommandStatus::AgentUnreachable => "AGENT_UNREACHABLE",
            ChildCommandStatus::TimedOut => "TIMED_OUT",
            ChildCommandStatus::AgentError => "AGENT_ERROR",
        }
    }

    /// The status stored in the database as `s`, if any.
    pub fn from_db_value(s: &str) -> (r: Option<ChildCommandStatus>)
        ensures
            match r {
                Some(st) => spec_child_status_db_value(st) == s@,
                None => forall|st: ChildCommandStatus| spec_child_status_db_value(st) != s@,
            },
    {
        if str_eq(s, "PENDING") {
            return Some(ChildCommandStatus::Pending);
        }
        if str_eq(s, "SENT_TO_AGENT") {
            return Some(ChildCommandStatus::SentToAgent);
        }
        if str_eq(s, "AGENT_ACCEPTED") {
            return Some(ChildCommandStatus::AgentAccepted);
        }
        if str_eq(s, "EXECUTING") {
            return Some(ChildCommandStatus::Executing);
        }
        if str_eq(s, "COMPLETED_SUCCESSFULLY") {
            return Some(ChildCommandStatus::CompletedSuccessfully);
        }
        if str_eq(s, "COMPLETED_WITH_FAILURE") {
            return Some(ChildCommandStatus::CompletedWithFailure);
        }
        if str_eq(s, "TERMINATING") {
            return Some(ChildCommandStatus::Terminating);
        }
        if str_eq(s, "TERMINATED") {
            return Some(ChildCommandStatus::Terminated);
        }
        if str_eq(s, "AGENT_UNREACHABLE") {
            return Some(ChildCommandStatus::AgentUnreachable);
        }
        if str_eq(s, "TIMED_OUT") {
            return Some(ChildCommandStatus::TimedOut);
        }
        if str_eq(s, "AGENT_ERROR") {
            return Some(ChildCommandStatus::AgentError);
        }
        proof {
            assert forall|st: ChildCommandStatus| spec_child_status_db_value(st) != s@ by {
                match st {
                    ChildCommandStatus::Pending => {},
                    ChildCommandStatus::SentToAgent => {},
                    ChildCommandStatus::AgentAccepted => {},
                    ChildCommandStatus::Executing => {},
                    ChildCommandStatus::CompletedSuccessfully => {},
                    ChildCommandStatus::CompletedWithFailure => {},
                    ChildCommandStatus::Terminating => {},
                    ChildCommandStatus::Terminated => {},
                    ChildCommandStatus::AgentUnreachable => {},
                    ChildCommandStatus::TimedOut => {},
                    ChildCommandStatus::AgentError => {},
                }
            }
        }
        None
    }
}

/// The answer to an accepted batch command request.
#[derive(Debug)]
pub struct BatchCommandAcceptedResponse {
    pub batch_command_id: u128,
    /// The status of the new batch, as stored (`PENDING`).
    pub status: String,
    pub message: String,
}

/// The answer to an accepted batch command request: a new batch starts as
/// `Pending`, reported by its stored name.
pub fn batch_accepted_response(batch_command_id: u128) -> (r: BatchCommandAcceptedResponse)
    ensures
        r.batch_command_id == batch_command_id,
        r.status@ == spec_batch_status_db_value(BatchCommandStatus::Pending),
        r.status@ == "PENDING"@,
        r.message@ == "Batch command task accepted and is being processed."@,
{
    BatchCommandAcceptedResponse {
        batch_command_id,
        status: BatchCommandStatus::Pending.db_value().to_string(),
        message: "Batch command task accepted and is being processed.".to_string(),
    }
}

/// The batch row of a new batch command.
#[derive(Debug)]
pub struct NewBatchTask {
    pub user_id: i32,
    pub status: BatchCommandStatus,
    pub execution_alias: Option<String>,
}

/// The row of a new child task: one per target VPS.
#[derive(Debug)]
pub struct NewChildTask {
    pub vps_id: String,
    pub status: ChildCommandStatus,
}

/// Plans a new batch command: a valid request gives a `Pending` batch with
/// the request's alias, and one `Pending` child task per target VPS, in the
/// order of the targets; an invalid one is refused as
/// `validate_batch_request` refuses it.
pub fn plan_batch_creation(user_id: i32, req: &CreateBatchCommandRequest) -> (r: Result<(NewBatchTask, Vec<NewChildTask>), BatchCommandServiceError>)
    ensures
        match spec_batch_request_error(
            req.command_content is Some,
            req.script_id is Some,
            req.target_vps_ids@.len(),
        ) {
            Some(msg) => r matches Err(BatchCommandServiceError::ValidationError(m)) && m@ == msg,
            None => r matches Ok((b, cs)) && b.user_id == user_id && b.status == BatchCommandStatus::Pending
                && b.execution_alias == req.execution_alias && cs@.len() == req.target_vps_ids@.len()
                && forall|i: int| 0 <= i < cs@.len() ==> (#[trigger] cs@[i]).vps_id@ == req.target_vps_ids@[i]@
                && cs@[i].status == ChildCommandStatus::Pending,
        },
{
    match validate_batch_request(req) {
        Err(e) => return Err(e),
        Ok(()) => {},
    }
    let mut children: Vec<NewChildTask> = Vec::new();
    let mut i: usize = 0;
    while i < req.target_vps_ids.len()
        invariant
            i <= req.target_vps_ids@.len(),
            children@.len() == i,
            forall|k: int| 0 <= k < i ==> (#[trigger] children@[k]).vps_id@ == req.target_vps_ids@[k]@
                && children@[k].status == ChildCommandStatus::Pending,
        decreases req.target_vps_ids@.len() - i,
    {
        let id = req.target_vps_ids[i].clone();
        children.push(NewChildTask { vps_id: id, status: ChildCommandStatus::Pending });
        i = i + 1;
    }
    let alias = match &req.execution_alias {
        Some(a) => Some(a.clone()),
        None => None,
    };
    Ok((NewBatchTask { user_id, status: BatchCommandStatus::Pending, execution_alias: alias }, children))
}

/// The log paths already recorded for a child task.
#[derive(Clone, Copy, Debug)]
pub struct ChildLogPaths {
    pub has_stdout_path: bool,
    pub has_stderr_path: bool,
}

/// What recording a chunk of output does besides the bookkeeping that
/// always happens (the output and update times are set and the chunk is
/// broadcast): which log path columns it fills in, and whether the chunk is
/// appended to the log file. Creating the log directory or appending may
/// fail without failing the call.
#[derive(Clone, Copy, Debug)]
pub struct OutputPlan {
    pub set_stdout_path: bool,
    pub set_stderr_path: bool,
    pub append_chunk: bool,
}

/// Plans the recording of a chunk of output of child `child_task_id`: an
/// unknown child is `NotFound` before anything is written; otherwise the
/// stream's path column is filled in when empty, and a non-empty chunk is
/// appended to the stream's log file.
pub fn plan_child_output(
    child: Option<ChildLogPaths>,
    child_task_id: u128,
    stream: OutputStream,
    chunk_len: usize,
) -> (r: Result<OutputPlan, BatchCommandServiceError>)
    ensures
        match child {
            None => r matches Err(BatchCommandServiceError::NotFound(id)) && id == child_task_id,
            Some(c) => r matches Ok(p) && p.set_stdout_path == (stream == OutputStream::Stdout && !c.has_stdout_path)
                && p.set_stderr_path == (stream == OutputStream::Stderr && !c.has_stderr_path)
                && p.append_chunk == (chunk_len > 0),
        },
{
    match child {
        None => Err(BatchCommandServiceError::NotFound(child_task_id)),
        Some(c) => {
            let (set_out, set_err) = log_path_updates(stream, c.has_stdout_path, c.has_stderr_path);
            Ok(OutputPlan { set_stdout_path: set_out, set_stderr_path: set_err, append_chunk: chunk_len > 0 })
        },
    }
}

} // verus!
