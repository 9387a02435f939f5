//! The lifecycle orchestrator: one task aggregate — the task record, its
//! escrow vault, its response registry and the admin record — driven as a
//! single state machine.
//!
//! Every operation runs as one atomic, serialized transaction of the host
//! ledger: it validates everything before it mutates anything, and on
//! failure the aggregate is unchanged. The ghost transition `step` is the
//! machine's one source of truth: each executable operation ensures its
//! effect equals `step` of the matching `Op`, so every law proved of
//! `step` sequences (see `laws`) holds of any sequence of calls.

use vstd::prelude::*;
use crate::errors::CoreError;
use crate::errors::TaskError;
use crate::policy::Policy;
use crate::response_manager::new_response;
use crate::response_manager::submit_err;
use crate::response_manager::submit_ok;
use crate::response_manager::submit_response;
use crate::response_manager::submitted_task;
use crate::response_manager::verify_response;
use crate::reward_vault::DepositReceipt;
use crate::reward_vault::deposit_err;
use crate::reward_vault::deposit_funds;
use crate::reward_vault::deposit_ok;
use crate::reward_vault::disburse_err;
use crate::reward_vault::disburse_ok;
use crate::reward_vault::disburse_rewards;
use crate::reward_vault::net_deposit;
use crate::reward_vault::platform_fee;
use crate::reward_vault::refund_err;
use crate::reward_vault::refund_ok;
use crate::reward_vault::refund_remaining;
use crate::states::AdminAccount;
use crate::states::ResponseAccount;
use crate::states::ResponseView;
use crate::states::RewardVaultAccount;
use crate::states::TaskAccount;
use crate::states::TaskView;
use crate::task_manager::create_err;
use crate::task_manager::create_ok;
use crate::task_manager::create_task;
use crate::task_manager::created_task;
use crate::task_manager::mark_complete_err;
use crate::task_manager::mark_complete_ok;
use crate::task_manager::mark_task_complete;
use crate::task_manager::quorum_ok;
use crate::task_manager::quorum_reached;

verus! {

/// Ghost view of the whole aggregate.
#[verifier::ext_equal]
pub ghost struct StateView {
    pub admin: AdminAccount,
    pub policy: Policy,
    pub task: TaskView,
    pub vault: RewardVaultAccount,
    pub responses: Seq<ResponseView>,
    /// False once the task record has been destroyed by cancellation; a
    /// destroyed aggregate accepts no further operation.
    pub live: bool,
}

impl StateView {
    /// No two responses of one task share a responder.
    pub open spec fn distinct_responders(self) -> bool {
        forall|i: int, j: int|
            0 <= i < j < self.responses.len() ==> self.responses[i].responder
                != self.responses[j].responder
    }

    /// The aggregate's invariant: a well-formed task, one registry record
    /// per counted response, distinct responders, completion forced at the
    /// quota, and every submission timestamp before the deadline.
    pub open spec fn wf(self) -> bool {
        &&& self.task.wf()
        &&& self.distinct_responders()
        &&& self.responses.len() == self.task.responses_received
        &&& (self.task.responses_received == self.task.max_responses ==> self.task.is_complete)
        &&& (forall|i: int|
            0 <= i < self.responses.len() ==> #[trigger] self.responses[i].timestamp
                < self.task.deadline)
    }

    /// Whether the registry holds a response by `responder`.
    pub open spec fn has_response(self, responder: u64) -> bool {
        exists|i: int| 0 <= i < self.responses.len() && self.responses[i].responder == responder
    }

    /// The registry slot of `responder`'s response; unique under `wf`.
    pub open spec fn response_index(self, responder: u64) -> int {
        choose|i: int| 0 <= i < self.responses.len() && self.responses[i].responder == responder
    }
}

/// One operation of the lifecycle, with the arguments the caller chose.
pub ghost enum Op {
    Deposit { amount: u64 },
    Submit { responder: u64, cid: Seq<char>, now: i64 },
    Verify { signer: u64, responder: u64 },
    MarkComplete { signer: u64 },
    CheckQuorum,
    Disburse { signer: u64, responder: u64 },
    Refund { caller: u64, now: i64 },
    Cancel { caller: u64, now: i64 },
}

/// Whether a submission by `responder` at `now` is accepted: no response
/// of that responder yet, the deadline not passed, the quota not full.
pub open spec fn submit_allowed(s: StateView, responder: u64, now: i64) -> bool {
    !s.has_response(responder) && submit_ok(s.task, now)
}

/// The error a submission fails with. The registry allocation runs first,
/// so a duplicate responder is rejected before anything else is looked at.
pub open spec fn submit_error(s: StateView, responder: u64, now: i64) -> CoreError {
    if s.has_response(responder) {
        CoreError::Task(TaskError::ResponseAlreadyExists)
    } else {
        submit_err(s.task, now)
    }
}

/// Whether verification by `signer` of `responder`'s response applies.
pub open spec fn verify_allowed(s: StateView, signer: u64, responder: u64) -> bool {
    s.has_response(responder) && signer == s.admin.authority
}

/// Whether a disbursement to `responder` signed by `signer` goes through.
pub open spec fn disburse_allowed(s: StateView, signer: u64, responder: u64) -> bool {
    &&& s.has_response(responder)
    &&& disburse_ok(
        s.task,
        s.vault.balance,
        s.responses[s.response_index(responder)].is_verified,
        s.admin.authority,
        signer,
    )
}

/// The state machine's transition: the aggregate after `op`, unchanged
/// where the operation fails (the host ledger rolls a failed transaction
/// back whole) or where the aggregate is no longer live.
pub open spec fn step(s: StateView, op: Op) -> StateView {
    if !s.live {
        s
    } else {
        match op {
            Op::Deposit { amount } => if deposit_ok(s.vault.balance, amount) {
                StateView {
                    vault: RewardVaultAccount {
                        balance: (s.vault.balance + net_deposit(amount)) as u64,
                        ..s.vault
                    },
                    ..s
                }
            } else {
                s
            },
            Op::Submit { responder, cid, now } => if submit_allowed(s, responder, now) {
                StateView {
                    task: submitted_task(s.task),
                    responses: s.responses.push(
                        new_response(responder, cid, now, s.policy.auto_verify_on_submit),
                    ),
                    ..s
                }
            } else {
                s
            },
            Op::Verify { signer, responder } => if verify_allowed(s, signer, responder) {
                let i = s.response_index(responder);
                StateView {
                    responses: s.responses.update(
                        i,
                        ResponseView { is_verified: true, ..s.responses[i] },
                    ),
                    ..s
                }
            } else {
                s
            },
            Op::MarkComplete { signer } => if mark_complete_ok(
                s.task,
                s.admin.authority,
                signer,
                s.policy,
            ) {
                StateView { task: TaskView { is_complete: true, ..s.task }, ..s }
            } else {
                s
            },
            Op::CheckQuorum => if quorum_ok(s.task) {
                StateView { task: TaskView { is_complete: true, ..s.task }, ..s }
            } else {
                s
            },
            Op::Disburse { signer, responder } => if disburse_allowed(s, signer, responder) {
                StateView {
                    vault: RewardVaultAccount {
                        balance: (s.vault.balance - s.task.reward_per_response) as u64,
                        ..s.vault
                    },
                    ..s
                }
            } else {
                s
            },
            Op::Refund { caller, now } => if refund_ok(s.task, caller, now) {
                StateView { vault: RewardVaultAccount { balance: 0, ..s.vault }, ..s }
            } else {
                s
            },
            Op::Cancel { caller, now } => if refund_ok(s.task, caller, now) {
                StateView {
                    vault: RewardVaultAccount { balance: 0, ..s.vault },
                    live: false,
                    ..s
                }
            } else {
                s
            },
        }
    }
}

/// The exec aggregate: the records, the registry, and the liveness flag.
pub struct TaskState {
    pub admin: AdminAccount,
    pub policy: Policy,
    pub task: TaskAccount,
    pub vault: RewardVaultAccount,
    pub responses: Vec<ResponseAccount>,
    pub live: bool,
}

impl View for TaskState {
    type V = StateView;

    open spec fn view(&self) -> StateView {
        StateView {
            admin: self.admin,
            policy: self.policy,
            task: self.task@,
            vault: self.vault,
            responses: self.responses@.map_values(|r: ResponseAccount| r@),
            live: self.live,
        }
    }
}

impl TaskState {
    /// Create the aggregate: a validated task, an empty vault, an empty
    /// registry. The admin record and the policy are fixed for the
    /// aggregate's whole life.
    pub fn create(
        admin: AdminAccount,
        policy: Policy,
        creator: u64,
        task_id: u64,
        reward_per_response: u64,
        max_responses: u16,
        deadline: i64,
        cid: String,
        now: i64,
    ) -> (r: Result<TaskState, CoreError>)
        ensures
            r is Ok <==> create_ok(
                task_id,
                reward_per_response,
                max_responses,
                deadline,
                now,
                cid@,
            ),
            r matches Ok(st) ==> st@ == (StateView {
                admin,
                policy,
                task: created_task(
                    creator,
                    task_id,
                    reward_per_response,
                    max_responses,
                    deadline,
                    cid@,
                ),
                vault: RewardVaultAccount { task_bump: 0, balance: 0, bump: 0 },
                responses: Seq::<ResponseView>::empty(),
                live: true,
            }) && st@.wf(),
            r matches Err(e) ==> e == create_err(
                task_id,
                reward_per_response,
                max_responses,
                deadline,
                now,
                cid@,
            ),
    {
        let task = match create_task(
            creator,
            task_id,
            reward_per_response,
            max_responses,
            deadline,
            cid,
            now,
            0,
        ) {
            Ok(t) => t,
            Err(e) => {
                return Err(e);
            },
        };
        let st = TaskState {
            admin,
            policy,
            task,
            vault: RewardVaultAccount { task_bump: 0, balance: 0, bump: 0 },
            responses: Vec::new(),
            live: true,
        };
        proof {
            assert(st@.responses =~= Seq::<ResponseView>::empty());
        }
        Ok(st)
    }

    /// Deposit `amount`: the fee leg goes to the admin authority, the net
    /// leg to the vault (see `reward_vault::deposit_funds`).
    pub fn deposit(&mut self, amount: u64) -> (r: Result<DepositReceipt, CoreError>)
        requires
            old(self)@.wf(),
            old(self).live,
        ensures
            final(self)@ == step(old(self)@, Op::Deposit { amount }),
            final(self)@.wf(),
            r is Ok <==> deposit_ok(old(self).vault.balance, amount),
            r matches Ok(receipt) ==> {
                &&& receipt.fee_to_admin == platform_fee(amount)
                &&& receipt.net_to_vault == net_deposit(amount)
                &&& receipt.fee_to_admin + receipt.net_to_vault == amount
            },
            r matches Err(e) ==> e == deposit_err(old(self).vault.balance, amount) && final(self)@
                == old(self)@,
    {
        let r = deposit_funds(&mut self.vault, amount);
        proof {
            assert(self@ =~= step(old(self)@, Op::Deposit { amount }));
        }
        r
    }

    /// The registry slot holding `responder`'s response, if any.
    fn find_response(&self, responder: u64) -> (o: Option<usize>)
        ensures
            o is Some <==> self@.has_response(responder),
            o matches Some(i) ==> i < self.responses.len() && self.responses@[i as int].responder
                == responder,
    {
        let n = self.responses.len();
        let mut i: usize = 0;
        while i < n
            invariant
                i <= n == self.responses.len(),
                forall|j: int| 0 <= j < i ==> self.responses@[j].responder != responder,
            decreases n - i,
        {
            if self.responses[i].responder == responder {
                proof {
                    assert(self@.responses[i as int].responder == responder);
                }
                return Some(i);
            }
            i = i + 1;
        }
        None
    }

    /// Submit a response by `responder` at time `now`. The registry key is
    /// allocated first, so a second response of the same responder fails
    /// with `ResponseAlreadyExists` whatever else holds; then the task must
    /// accept one more response (deadline, quota). Reaching the quota
    /// completes the task.
    pub fn submit(&mut self, responder: u64, cid: String, now: i64) -> (r: Result<(), CoreError>)
        requires
            old(self)@.wf(),
            old(self).live,
        ensures
            final(self)@ == step(old(self)@, Op::Submit { responder, cid: cid@, now }),
            final(self)@.wf(),
            r is Ok <==> submit_allowed(old(self)@, responder, now),
            r matches Err(e) ==> e == submit_error(old(self)@, responder, now) && final(self)@
                == old(self)@,
    {
        if self.find_response(responder).is_some() {
            return Err(CoreError::Task(TaskError::ResponseAlreadyExists));
        }
        match submit_response(&mut self.task, responder, cid, now, self.policy.auto_verify_on_submit) {
            Ok(resp) => {
                self.responses.push(resp);
                proof {
                    assert(self@.responses =~= old(self)@.responses.push(
                        new_response(responder, cid@, now, old(self).policy.auto_verify_on_submit),
                    ));
                    assert(self@ =~= step(old(self)@, Op::Submit { responder, cid: cid@, now }));
                }
                Ok(())
            },
            Err(e) => {
                proof {
                    assert(self@ =~= old(self)@);
                }
                Err(e)
            },
        }
    }

    /// Mark the task complete under the aggregate's policy.
    pub fn complete(&mut self, signer: u64) -> (r: Result<(), CoreError>)
        requires
            old(self)@.wf(),
            old(self).live,
        ensures
            final(self)@ == step(old(self)@, Op::MarkComplete { signer }),
            final(self)@.wf(),
            r is Ok <==> mark_complete_ok(
                old(self)@.task,
                old(self).admin.authority,
                signer,
                old(self).policy,
            ),
            r matches Err(e) ==> e == mark_complete_err(
                old(self)@.task,
                old(self).admin.authority,
                signer,
                old(self).policy,
            ) && final(self)@ == old(self)@,
    {
        let policy = self.policy;
        let r = mark_task_complete(&mut self.task, &self.admin, signer, policy);
        proof {
            assert(self@ =~= step(old(self)@, Op::MarkComplete { signer }));
        }
        r
    }

    /// Complete the task on a met quorum, with no signer needed.
    pub fn check_quorum(&mut self) -> (r: Result<(), CoreError>)
        requires
            old(self)@.wf(),
            old(self).live,
        ensures
            final(self)@ == step(old(self)@, Op::CheckQuorum),
            final(self)@.wf(),
            r is Ok <==> quorum_ok(old(self)@.task),
            r matches Err(e) ==> e == CoreError::Task(TaskError::NotEnoughResponses)
                && final(self)@ == old(self)@,
    {
        let r = quorum_reached(&mut self.task);
        proof {
            assert(self@ =~= step(old(self)@, Op::CheckQuorum));
        }
        r
    }

    /// Verify `responder`'s response; only the admin authority may sign.
    /// The caller hands in the response record itself on the wire, so a
    /// response of `responder` must exist here.
    pub fn verify(&mut self, signer: u64, responder: u64) -> (r: Result<(), CoreError>)
        requires
            old(self)@.wf(),
            old(self).live,
            old(self)@.has_response(responder),
        ensures
            final(self)@ == step(old(self)@, Op::Verify { signer, responder }),
            final(self)@.wf(),
            r is Ok <==> signer == old(self).admin.authority,
            r matches Err(e) ==> e == CoreError::Task(TaskError::Unauthorized) && final(self)@
                == old(self)@,
    {
        let i = match self.find_response(responder) {
            Some(i) => i,
            None => {
                proof {
                    assert(false);
                }
                return Err(CoreError::Task(TaskError::Unauthorized));
            },
        };
        proof {
            lemma_response_index_of(self@, responder, i as int);
        }
        let mut resp = self.responses.remove(i);
        let r = verify_response(&mut resp, &self.admin, signer);
        self.responses.insert(i, resp);
        proof {
            let s0 = old(self)@;
            if signer == s0.admin.authority {
                assert(self@.responses =~= s0.responses.update(
                    i as int,
                    ResponseView { is_verified: true, ..s0.responses[i as int] },
                ));
            } else {
                assert(self@.responses =~= s0.responses);
            }
            assert(self@ =~= step(s0, Op::Verify { signer, responder }));
        }
        r
    }

    /// Pay one reward to `responder` from the vault; the task must be
    /// complete, the response verified, and the admin must sign. As with
    /// `verify`, the caller hands in the response record, so one must
    /// exist.
    pub fn disburse(&mut self, signer: u64, responder: u64) -> (r: Result<u64, CoreError>)
        requires
            old(self)@.wf(),
            old(self).live,
            old(self)@.has_response(responder),
        ensures
            final(self)@ == step(old(self)@, Op::Disburse { signer, responder }),
            final(self)@.wf(),
            r is Ok <==> disburse_allowed(old(self)@, signer, responder),
            r matches Ok(paid) ==> paid == old(self).task.reward_per_response,
            r matches Err(e) ==> e == disburse_err(
                old(self)@.task,
                old(self).vault.balance,
                old(self)@.responses[old(self)@.response_index(responder)].is_verified,
                old(self).admin.authority,
                signer,
            ) && final(self)@ == old(self)@,
    {
        let i = match self.find_response(responder) {
            Some(i) => i,
            None => {
                proof {
                    assert(false);
                }
                return Err(CoreError::Task(TaskError::Unauthorized));
            },
        };
        proof {
            lemma_response_index_of(self@, responder, i as int);
        }
        let r = disburse_rewards(&self.task, &mut self.vault, &self.responses[i], &self.admin, signer);
        proof {
            assert(old(self)@.responses[i as int] == self.responses@[i as int]@);
            assert(self@ =~= step(old(self)@, Op::Disburse { signer, responder }));
        }
        r
    }

    /// Return the remaining balance to the creator and empty the vault;
    /// the vault record itself is then closed by the substrate.
    pub fn refund(&mut self, caller: u64, now: i64) -> (r: Result<u64, CoreError>)
        requires
            old(self)@.wf(),
            old(self).live,
        ensures
            final(self)@ == step(old(self)@, Op::Refund { caller, now }),
            final(self)@.wf(),
            r is Ok <==> refund_ok(old(self)@.task, caller, now),
            r matches Ok(refunded) ==> refunded == old(self).vault.balance
                && final(self).vault.balance == 0,
            r matches Err(e) ==> e == refund_err(old(self)@.task, caller, now) && final(self)@
                == old(self)@,
    {
        let r = refund_remaining(&self.task, &mut self.vault, caller, now);
        proof {
            assert(self@ =~= step(old(self)@, Op::Refund { caller, now }));
        }
        r
    }

    /// Cancel the task: the checks and the refund of `refund`, after which
    /// the task record is destroyed — the aggregate is no longer live and
    /// accepts no further operation.
    pub fn cancel(&mut self, caller: u64, now: i64) -> (r: Result<u64, CoreError>)
        requires
            old(self)@.wf(),
            old(self).live,
        ensures
            final(self)@ == step(old(self)@, Op::Cancel { caller, now }),
            final(self)@.wf(),
            r is Ok <==> refund_ok(old(self)@.task, caller, now),
            r matches Ok(refunded) ==> refunded == old(self).vault.balance && !final(self).live,
            r matches Err(e) ==> e == refund_err(old(self)@.task, caller, now) && final(self)@
                == old(self)@,
    {
        match refund_remaining(&self.task, &mut self.vault, caller, now) {
            Ok(refunded) => {
                self.live = false;
                proof {
                    assert(self@ =~= step(old(self)@, Op::Cancel { caller, now }));
                }
                Ok(refunded)
            },
            Err(e) => {
                proof {
                    assert(self@ =~= step(old(self)@, Op::Cancel { caller, now }));
                }
                Err(e)
            },
        }
    }
}

/// Under distinct responders, any slot holding `responder` is the one
/// `response_index` picks.
pub proof fn lemma_response_index_of(s: StateView, responder: u64, i: int)
    requires
        s.distinct_responders(),
        0 <= i < s.responses.len(),
        s.responses[i].responder == responder,
    ensures
        s.has_response(responder),
        s.response_index(responder) == i,
{
    assert(s.has_response(responder));
    let j = s.response_index(responder);
    if j < i {
        assert(s.responses[j].responder != s.responses[i].responder);
    } else if i < j {
        assert(s.responses[i].responder != s.responses[j].responder);
    }
}

} // verus!
