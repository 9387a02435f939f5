//! Laws of the lifecycle state machine, proved over arbitrary operation
//! sequences. Because every executable operation of `lifecycle::TaskState`
//! ensures its effect equals `step`, each law here holds of any sequence
//! of calls on a live, well-formed aggregate.

use vstd::prelude::*;
use crate::errors::CoreError;
use crate::errors::TaskError;
use crate::lifecycle::Op;
use crate::lifecycle::StateView;
use crate::lifecycle::disburse_allowed;
use crate::lifecycle::step;
use crate::lifecycle::submit_allowed;
use crate::lifecycle::submit_error;
use crate::reward_vault::deposit_ok;
use crate::reward_vault::lemma_fee_split;
use crate::reward_vault::net_deposit;
use crate::reward_vault::refund_ok;

verus! {

/// The aggregate after a whole sequence of operations, first to last.
pub open spec fn run(s: StateView, ops: Seq<Op>) -> StateView
    decreases ops.len(),
{
    if ops.len() == 0 {
        s
    } else {
        run(step(s, ops[0]), ops.drop_first())
    }
}

/// What one operation credits to the vault: the net leg of a successful
/// deposit, nothing otherwise.
pub open spec fn vault_in(s: StateView, op: Op) -> int {
    if s.live {
        match op {
            Op::Deposit { amount } => if deposit_ok(s.vault.balance, amount) {
                net_deposit(amount)
            } else {
                0
            },
            _ => 0,
        }
    } else {
        0
    }
}

/// What one operation debits from the vault: one reward on a successful
/// disbursement, the whole balance on a successful refund or cancel,
/// nothing otherwise.
pub open spec fn vault_out(s: StateView, op: Op) -> int {
    if s.live {
        match op {
            Op::Disburse { signer, responder } => if disburse_allowed(s, signer, responder) {
                s.task.reward_per_response as int
            } else {
                0
            },
            Op::Refund { caller, now } => if refund_ok(s.task, caller, now) {
                s.vault.balance as int
            } else {
                0
            },
            Op::Cancel { caller, now } => if refund_ok(s.task, caller, now) {
                s.vault.balance as int
            } else {
                0
            },
            _ => 0,
        }
    } else {
        0
    }
}

/// Total credited to the vault over a sequence (deposits, net of fees).
pub open spec fn total_in(s: StateView, ops: Seq<Op>) -> int
    decreases ops.len(),
{
    if ops.len() == 0 {
        0
    } else {
        vault_in(s, ops[0]) + total_in(step(s, ops[0]), ops.drop_first())
    }
}

/// Total debited from the vault over a sequence (disbursements, refunds).
pub open spec fn total_out(s: StateView, ops: Seq<Op>) -> int
    decreases ops.len(),
{
    if ops.len() == 0 {
        0
    } else {
        vault_out(s, ops[0]) + total_out(step(s, ops[0]), ops.drop_first())
    }
}

/// One step moves the balance by exactly its credit minus its debit.
proof fn lemma_step_balance(s: StateView, op: Op)
    ensures
        step(s, op).vault.balance == s.vault.balance + vault_in(s, op) - vault_out(s, op),
{
    if s.live {
        match op {
            Op::Deposit { amount } => {
                if deposit_ok(s.vault.balance, amount) {
                    lemma_fee_split(amount);
                }
            },
            _ => {},
        }
    }
}

/// One step never shrinks the response count.
proof fn lemma_step_monotonic(s: StateView, op: Op)
    ensures
        step(s, op).task.responses_received >= s.task.responses_received,
{
}

/// One step preserves the aggregate's invariant.
proof fn lemma_step_wf(s: StateView, op: Op)
    requires
        s.wf(),
    ensures
        step(s, op).wf(),
{
}

/// The vault's balance is exactly what was deposited (net of fees) minus
/// what was disbursed and refunded, relative to where the sequence
/// started; and it is never negative. Every operation moves funds by a
/// balanced two-sided update, so no sequence of operations can create or
/// destroy escrowed money.
pub proof fn lemma_vault_accounting(s: StateView, ops: Seq<Op>)
    ensures
        run(s, ops).vault.balance == s.vault.balance + total_in(s, ops) - total_out(s, ops),
        run(s, ops).vault.balance >= 0,
    decreases ops.len(),
{
    if ops.len() > 0 {
        lemma_step_balance(s, ops[0]);
        lemma_vault_accounting(step(s, ops[0]), ops.drop_first());
    }
}

/// `responses_received` is monotonically non-decreasing over any sequence
/// of operations.
pub proof fn lemma_responses_monotonic(s: StateView, ops: Seq<Op>)
    ensures
        run(s, ops).task.responses_received >= s.task.responses_received,
    decreases ops.len(),
{
    if ops.len() > 0 {
        lemma_step_monotonic(s, ops[0]);
        lemma_responses_monotonic(step(s, ops[0]), ops.drop_first());
    }
}

/// A well-formed aggregate stays well-formed under any sequence of
/// operations; in particular `responses_received` never exceeds
/// `max_responses`.
pub proof fn lemma_wf_preserved(s: StateView, ops: Seq<Op>)
    requires
        s.wf(),
    ensures
        run(s, ops).wf(),
        run(s, ops).task.responses_received <= run(s, ops).task.max_responses,
    decreases ops.len(),
{
    if ops.len() > 0 {
        lemma_step_wf(s, ops[0]);
        lemma_wf_preserved(step(s, ops[0]), ops.drop_first());
    }
}

/// Completion is one-way: once a task is complete, no sequence of
/// operations makes it incomplete again.
pub proof fn lemma_completion_one_way(s: StateView, ops: Seq<Op>)
    requires
        s.task.is_complete,
    ensures
        run(s, ops).task.is_complete,
    decreases ops.len(),
{
    if ops.len() > 0 {
        lemma_completion_one_way(step(s, ops[0]), ops.drop_first());
    }
}

/// The terms a task was created with — identity, reward, quota, deadline,
/// content identifier — are never mutated by any operation.
pub proof fn lemma_terms_fixed(s: StateView, ops: Seq<Op>)
    ensures
        run(s, ops).task.task_id == s.task.task_id,
        run(s, ops).task.creator == s.task.creator,
        run(s, ops).task.reward_per_response == s.task.reward_per_response,
        run(s, ops).task.max_responses == s.task.max_responses,
        run(s, ops).task.deadline == s.task.deadline,
        run(s, ops).task.cid == s.task.cid,
        run(s, ops).admin == s.admin,
        run(s, ops).policy == s.policy,
    decreases ops.len(),
{
    if ops.len() > 0 {
        lemma_terms_fixed(step(s, ops[0]), ops.drop_first());
    }
}

/// Once a responder's submission has been accepted, a second submission by
/// the same responder fails with `ResponseAlreadyExists` and leaves the
/// aggregate unchanged, whatever its content and time.
pub proof fn lemma_duplicate_submit_rejected(
    s: StateView,
    responder: u64,
    cid1: Seq<char>,
    now1: i64,
    cid2: Seq<char>,
    now2: i64,
)
    requires
        s.live,
        submit_allowed(s, responder, now1),
    ensures
        ({
            let s1 = step(s, Op::Submit { responder, cid: cid1, now: now1 });
            &&& !submit_allowed(s1, responder, now2)
            &&& submit_error(s1, responder, now2) == CoreError::Task(
                TaskError::ResponseAlreadyExists,
            )
            &&& step(s1, Op::Submit { responder, cid: cid2, now: now2 }) == s1
        }),
{
    let s1 = step(s, Op::Submit { responder, cid: cid1, now: now1 });
    assert(s1.responses[s1.responses.len() - 1].responder == responder);
    assert(s1.has_response(responder));
}

} // verus!
