//! Task creation and completion.

use vstd::prelude::*;
use crate::errors::CoreError;
use crate::errors::TaskError;
use crate::policy::Policy;
use crate::policy::completion_authorized;
use crate::policy::is_completion_authorized;
use crate::states::AdminAccount;
use crate::states::TaskAccount;
use crate::states::TaskView;
use crate::states::MAX_CID_LEN;
use crate::states::valid_cid;

verus! {

/// Whether the arguments of task creation pass every validation.
pub open spec fn create_ok(
    task_id: u64,
    reward_per_response: u64,
    max_responses: u16,
    deadline: i64,
    now: i64,
    cid: Seq<char>,
) -> bool {
    &&& task_id != 0
    &&& reward_per_response > 0
    &&& max_responses > 0
    &&& deadline > now
    &&& valid_cid(cid)
}

/// The error creation fails with: the first validation that does not
/// hold, in the order the checks run.
pub open spec fn create_err(
    task_id: u64,
    reward_per_response: u64,
    max_responses: u16,
    deadline: i64,
    now: i64,
    cid: Seq<char>,
) -> CoreError {
    if task_id == 0 {
        CoreError::Task(TaskError::InvalidTaskId)
    } else if reward_per_response == 0 {
        CoreError::Task(TaskError::InvalidReward)
    } else if max_responses == 0 {
        CoreError::Task(TaskError::InvalidMaxResponses)
    } else if deadline <= now {
        CoreError::Task(TaskError::InvalidDeadline)
    } else {
        CoreError::Task(TaskError::InvalidCID)
    }
}

/// The view of a freshly created task: the validated terms, no response
/// yet, not complete.
pub open spec fn created_task(
    creator: u64,
    task_id: u64,
    reward_per_response: u64,
    max_responses: u16,
    deadline: i64,
    cid: Seq<char>,
) -> TaskView {
    TaskView {
        task_id,
        creator,
        reward_per_response,
        max_responses,
        deadline,
        responses_received: 0,
        is_complete: false,
        cid,
    }
}

/// Create a task with the given reward terms. Validates every argument
/// before any record is written: the identifier and the reward terms must
/// be positive, the deadline must lie in the future, and the content
/// identifier must be non-empty and at most `MAX_CID_LEN` bytes. No funds
/// move yet; `bump` is the storage-derivation seed of the new record.
pub fn create_task(
    creator: u64,
    task_id: u64,
    reward_per_response: u64,
    max_responses: u16,
    deadline: i64,
    cid: String,
    now: i64,
    bump: u8,
) -> (r: Result<TaskAccount, CoreError>)
    ensures
        r is Ok <==> create_ok(task_id, reward_per_response, max_responses, deadline, now, cid@),
        r matches Ok(t) ==> t@ == created_task(
            creator,
            task_id,
            reward_per_response,
            max_responses,
            deadline,
            cid@,
        ) && t.bump == bump && t@.wf(),
        r matches Err(e) ==> e == create_err(
            task_id,
            reward_per_response,
            max_responses,
            deadline,
            now,
            cid@,
        ),
{
    if task_id == 0 {
        return Err(CoreError::Task(TaskError::InvalidTaskId));
    }
    if reward_per_response == 0 {
        return Err(CoreError::Task(TaskError::InvalidReward));
    }
    if max_responses == 0 {
        return Err(CoreError::Task(TaskError::InvalidMaxResponses));
    }
    if deadline <= now {
        return Err(CoreError::Task(TaskError::InvalidDeadline));
    }
    if cid.as_str().is_empty() || cid.as_str().as_bytes().len() > MAX_CID_LEN {
        return Err(CoreError::Task(TaskError::InvalidCID));
    }
    Ok(TaskAccount {
        task_id,
        creator,
        reward_per_response,
        max_responses,
        deadline,
        responses_received: 0,
        is_complete: false,
        bump,
        cid,
    })
}

/// Whether `signer` may mark the task complete now: authorized under the
/// policy, not yet complete, and at quorum where the policy demands one.
pub open spec fn mark_complete_ok(
    t: TaskView,
    admin_authority: u64,
    signer: u64,
    policy: Policy,
) -> bool {
    &&& completion_authorized(policy.completion, signer, t.creator, admin_authority)
    &&& !t.is_complete
    &&& (policy.require_quorum ==> t.responses_received >= t.max_responses)
}

/// The error completion fails with, in the order the checks run.
pub open spec fn mark_complete_err(
    t: TaskView,
    admin_authority: u64,
    signer: u64,
    policy: Policy,
) -> CoreError {
    if !completion_authorized(policy.completion, signer, t.creator, admin_authority) {
        CoreError::Task(TaskError::Unauthorized)
    } else if t.is_complete {
        CoreError::Task(TaskError::TaskAlreadyComplete)
    } else {
        CoreError::Task(TaskError::NotEnoughResponses)
    }
}

/// Mark the task complete. Completion is one-way: a complete task is
/// terminal and the call fails on one. Who may complete, and whether a
/// quorum of responses is demanded first, is the policy's choice.
pub fn mark_task_complete(
    task: &mut TaskAccount,
    admin: &AdminAccount,
    signer: u64,
    policy: Policy,
) -> (r: Result<(), CoreError>)
    ensures
        r is Ok <==> mark_complete_ok(old(task)@, admin.authority, signer, policy),
        r is Ok ==> *final(task) == (TaskAccount { is_complete: true, ..*old(task) }),
        r matches Err(e) ==> e == mark_complete_err(old(task)@, admin.authority, signer, policy)
            && *final(task) == *old(task),
{
    if !is_completion_authorized(policy.completion, signer, task.creator, admin) {
        return Err(CoreError::Task(TaskError::Unauthorized));
    }
    if task.is_complete {
        return Err(CoreError::Task(TaskError::TaskAlreadyComplete));
    }
    if policy.require_quorum && task.responses_received < task.max_responses {
        return Err(CoreError::Task(TaskError::NotEnoughResponses));
    }
    task.is_complete = true;
    Ok(())
}

/// Whether the quorum transition applies: not yet complete and the
/// response quota has been met.
pub open spec fn quorum_ok(t: TaskView) -> bool {
    !t.is_complete && t.responses_received >= t.max_responses
}

/// Check the quorum and complete the task on it. This needs no signer: it
/// only restates what the response registry already established, so the
/// delegated fast-path venue can drive completion without an admin
/// round-trip. Fails when the quota is not met, and on a task that is
/// already complete.
pub fn quorum_reached(task: &mut TaskAccount) -> (r: Result<(), CoreError>)
    ensures
        r is Ok <==> quorum_ok(old(task)@),
        r is Ok ==> *final(task) == (TaskAccount { is_complete: true, ..*old(task) }),
        r matches Err(e) ==> e == CoreError::Task(TaskError::NotEnoughResponses)
            && *final(task) == *old(task),
{
    if !task.is_complete && task.responses_received >= task.max_responses {
        task.is_complete = true;
        Ok(())
    } else {
        Err(CoreError::Task(TaskError::NotEnoughResponses))
    }
}

} // verus!
