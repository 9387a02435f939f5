//! The response registry: submission and verification of work product.

use vstd::prelude::*;
use crate::errors::CoreError;
use crate::errors::TaskError;
use crate::states::AdminAccount;
use crate::states::ResponseAccount;
use crate::states::ResponseView;
use crate::states::TaskAccount;
use crate::states::TaskView;

verus! {

/// Whether the task accepts one more response at time `now`: the deadline
/// has not passed and the quota is not full.
pub open spec fn submit_ok(t: TaskView, now: i64) -> bool {
    now < t.deadline && t.responses_received < t.max_responses
}

/// The error a submission fails with, in the order the checks run.
pub open spec fn submit_err(t: TaskView, now: i64) -> CoreError {
    if now >= t.deadline {
        CoreError::Task(TaskError::DeadlinePassed)
    } else {
        CoreError::Task(TaskError::MaxResponsesReached)
    }
}

/// The task after accepting one response: the count grows by one, and the
/// task completes itself when the count reaches the quota.
pub open spec fn submitted_task(t: TaskView) -> TaskView {
    TaskView {
        responses_received: (t.responses_received + 1) as u16,
        is_complete: t.is_complete || t.responses_received + 1 == t.max_responses,
        ..t
    }
}

/// The view of a fresh response record.
pub open spec fn new_response(
    responder: u64,
    cid: Seq<char>,
    now: i64,
    verified: bool,
) -> ResponseView {
    ResponseView { responder, timestamp: now, is_verified: verified, cid }
}

/// Accept a response to the task: before the deadline and below the
/// quota, the count grows by one, and reaching the quota completes the
/// task. Whether the new record already counts as verified is the
/// policy's `auto_verify_on_submit`. The uniqueness of the
/// `(task, responder)` pair is the registry's concern (see `lifecycle`):
/// the host ledger refuses to allocate a second record under the same
/// key.
pub fn submit_response(
    task: &mut TaskAccount,
    responder: u64,
    cid: String,
    now: i64,
    auto_verify: bool,
) -> (r: Result<ResponseAccount, CoreError>)
    ensures
        r is Ok <==> submit_ok(old(task)@, now),
        r matches Ok(resp) ==> {
            &&& resp@ == new_response(responder, cid@, now, auto_verify)
            &&& resp.task_bump == old(task).bump
            &&& *final(task) == (TaskAccount {
                responses_received: (old(task).responses_received + 1) as u16,
                is_complete: old(task).is_complete
                    || old(task).responses_received + 1 == old(task).max_responses,
                ..*old(task)
            })
        },
        r matches Err(e) ==> e == submit_err(old(task)@, now) && *final(task) == *old(task),
{
    if now >= task.deadline {
        return Err(CoreError::Task(TaskError::DeadlinePassed));
    }
    if task.responses_received >= task.max_responses {
        return Err(CoreError::Task(TaskError::MaxResponsesReached));
    }
    let response = ResponseAccount {
        task_bump: task.bump,
        responder,
        timestamp: now,
        is_verified: auto_verify,
        bump: 0,
        cid,
    };
    task.responses_received = task.responses_received + 1;
    if task.responses_received == task.max_responses {
        task.is_complete = true;
    }
    Ok(response)
}

/// Verify a response: only the admin authority may sign this, and the
/// effect is idempotent (a verified record stays verified).
pub fn verify_response(
    response: &mut ResponseAccount,
    admin: &AdminAccount,
    signer: u64,
) -> (r: Result<(), CoreError>)
    ensures
        r is Ok <==> signer == admin.authority,
        r is Ok ==> *final(response) == (ResponseAccount { is_verified: true, ..*old(response) }),
        r matches Err(e) ==> e == CoreError::Task(TaskError::Unauthorized)
            && *final(response) == *old(response),
{
    if admin.authority != signer {
        return Err(CoreError::Task(TaskError::Unauthorized));
    }
    response.is_verified = true;
    Ok(())
}

} // verus!
