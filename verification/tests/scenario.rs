//! Whole-lifecycle scenarios on the orchestrated aggregate.

use task_bounty::errors::CoreError;
use task_bounty::errors::RewardError;
use task_bounty::errors::TaskError;
use task_bounty::lifecycle::TaskState;
use task_bounty::policy::CompletionPolicy;
use task_bounty::policy::Policy;
use task_bounty::states::AdminAccount;

fn admin() -> AdminAccount {
    AdminAccount { authority: 42, bump: 0 }
}

fn manual_verify() -> Policy {
    Policy {
        completion: CompletionPolicy::AdminOrCreator,
        require_quorum: false,
        auto_verify_on_submit: false,
    }
}

const CREATOR: u64 = 7;
const ADMIN_KEY: u64 = 42;
const RESPONDER_A: u64 = 100;
const RESPONDER_B: u64 = 200;

#[test]
fn full_lifecycle_deposit_submit_complete_verify_disburse() {
    // Create: id 1, reward 100 per response, quota 2, deadline an hour out.
    let mut st = TaskState::create(
        admin(),
        manual_verify(),
        CREATOR,
        1,
        100,
        2,
        3600,
        "Qm1".to_string(),
        0,
    )
    .expect("create");

    // Deposit 1000: fee 69 to the admin authority, net 931 to the vault.
    let receipt = st.deposit(1000).expect("deposit");
    assert_eq!(receipt.fee_to_admin, 69);
    assert_eq!(receipt.net_to_vault, 931);
    assert_eq!(st.vault.balance, 931);

    // Two responders submit; the quota completes the task by itself.
    st.submit(RESPONDER_A, "QrA".to_string(), 10).expect("submit A");
    assert_eq!(st.task.responses_received, 1);
    assert!(!st.task.is_complete);
    st.submit(RESPONDER_B, "QrB".to_string(), 20).expect("submit B");
    assert_eq!(st.task.responses_received, 2);
    assert!(st.task.is_complete);

    // A third responder is turned away: the quota is full.
    let r = st.submit(300, "QrC".to_string(), 30);
    assert_eq!(r.unwrap_err(), CoreError::Task(TaskError::MaxResponsesReached));

    // The admin verifies both responses.
    st.verify(ADMIN_KEY, RESPONDER_A).expect("verify A");
    st.verify(ADMIN_KEY, RESPONDER_B).expect("verify B");
    assert!(st.responses.iter().all(|r| r.is_verified));

    // Each verified responder is paid exactly one reward.
    let paid_a = st.disburse(ADMIN_KEY, RESPONDER_A).expect("disburse A");
    let paid_b = st.disburse(ADMIN_KEY, RESPONDER_B).expect("disburse B");
    assert_eq!(paid_a, 100);
    assert_eq!(paid_b, 100);
    assert_eq!(st.vault.balance, 731);

    // The task is complete, so the creator can no longer pull the rest out.
    let r = st.refund(CREATOR, 30);
    assert_eq!(r.unwrap_err(), CoreError::Task(TaskError::TaskAlreadyComplete));
    assert_eq!(st.vault.balance, 731);

    // The terms the task was created with never moved.
    assert_eq!(st.task.task_id, 1);
    assert_eq!(st.task.creator, CREATOR);
    assert_eq!(st.task.reward_per_response, 100);
    assert_eq!(st.task.max_responses, 2);
    assert_eq!(st.task.deadline, 3600);
    assert_eq!(st.task.cid, "Qm1");
}

#[test]
fn check_quorum_below_quota_rejected() {
    let mut st = TaskState::create(
        admin(),
        Policy::permissive(),
        CREATOR,
        1,
        100,
        2,
        3600,
        "Qm1".to_string(),
        0,
    )
    .expect("create");
    st.submit(RESPONDER_A, "QrA".to_string(), 10).expect("submit");
    let r = st.check_quorum();
    assert_eq!(r.unwrap_err(), CoreError::Task(TaskError::NotEnoughResponses));
    assert!(!st.task.is_complete);
}

#[test]
fn responses_received_never_decreases_and_never_exceeds_quota() {
    let mut st = TaskState::create(
        admin(),
        Policy::permissive(),
        CREATOR,
        1,
        10,
        3,
        3600,
        "Qm1".to_string(),
        0,
    )
    .expect("create");
    st.deposit(500).expect("deposit");
    let mut last = 0u16;
    let calls: Vec<(u64, i64)> = vec![
        (RESPONDER_A, 10),
        (RESPONDER_A, 11),
        (RESPONDER_B, 12),
        (300, 9999),
        (300, 13),
        (400, 14),
        (500, 15),
    ];
    for (responder, now) in calls {
        let _ = st.submit(responder, "Qr".to_string(), now);
        assert!(st.task.responses_received >= last);
        assert!(st.task.responses_received <= st.task.max_responses);
        last = st.task.responses_received;
    }
    assert_eq!(st.task.responses_received, 3);
    assert!(st.task.is_complete);
}

#[test]
fn vault_balance_equals_net_deposits_minus_payouts() {
    let mut st = TaskState::create(
        admin(),
        Policy::permissive(),
        CREATOR,
        1,
        100,
        2,
        3600,
        "Qm1".to_string(),
        0,
    )
    .expect("create");
    let mut net_in: u64 = 0;
    let mut out: u64 = 0;
    net_in += st.deposit(1000).expect("deposit").net_to_vault;
    net_in += st.deposit(333).expect("deposit").net_to_vault;
    st.submit(RESPONDER_A, "QrA".to_string(), 10).expect("submit A");
    st.submit(RESPONDER_B, "QrB".to_string(), 20).expect("submit B");
    out += st.disburse(ADMIN_KEY, RESPONDER_A).expect("disburse A");
    net_in += st.deposit(50).expect("deposit").net_to_vault;
    out += st.disburse(ADMIN_KEY, RESPONDER_B).expect("disburse B");
    assert_eq!(st.vault.balance, net_in - out);
}

#[test]
fn cancel_refunds_and_destroys() {
    let mut st = TaskState::create(
        admin(),
        Policy::permissive(),
        CREATOR,
        1,
        100,
        2,
        3600,
        "Qm1".to_string(),
        0,
    )
    .expect("create");
    st.deposit(1000).expect("deposit");
    let refunded = st.cancel(CREATOR, 100).expect("cancel");
    assert_eq!(refunded, 931);
    assert_eq!(st.vault.balance, 0);
    assert!(!st.live);
}

#[test]
fn cancel_after_deadline_rejected() {
    let mut st = TaskState::create(
        admin(),
        Policy::permissive(),
        CREATOR,
        1,
        100,
        2,
        3600,
        "Qm1".to_string(),
        0,
    )
    .expect("create");
    st.deposit(1000).expect("deposit");
    let r = st.cancel(CREATOR, 3600);
    assert_eq!(r.unwrap_err(), CoreError::Task(TaskError::DeadlinePassed));
    assert_eq!(st.vault.balance, 931);
    assert!(st.live);
}

#[test]
fn cancel_completed_task_rejected() {
    let mut st = TaskState::create(
        admin(),
        Policy::permissive(),
        CREATOR,
        1,
        100,
        2,
        3600,
        "Qm1".to_string(),
        0,
    )
    .expect("create");
    st.complete(CREATOR).expect("creator completes");
    let r = st.cancel(CREATOR, 100);
    assert_eq!(r.unwrap_err(), CoreError::Task(TaskError::TaskAlreadyComplete));
}

#[test]
fn disburse_on_underfunded_vault_rejected_in_lifecycle() {
    let mut st = TaskState::create(
        admin(),
        Policy::permissive(),
        CREATOR,
        1,
        100,
        1,
        3600,
        "Qm1".to_string(),
        0,
    )
    .expect("create");
    st.deposit(105).expect("deposit");
    assert_eq!(st.vault.balance, 98);
    st.submit(RESPONDER_A, "QrA".to_string(), 10).expect("submit");
    assert!(st.task.is_complete);
    let r = st.disburse(ADMIN_KEY, RESPONDER_A);
    assert_eq!(
        r.unwrap_err(),
        CoreError::Reward(RewardError::InsufficientVaultBalance)
    );
    assert_eq!(st.vault.balance, 98);
}

#[test]
fn verify_then_disburse_under_manual_policy() {
    let mut st = TaskState::create(
        admin(),
        manual_verify(),
        CREATOR,
        1,
        100,
        1,
        3600,
        "Qm1".to_string(),
        0,
    )
    .expect("create");
    st.deposit(1000).expect("deposit");
    st.submit(RESPONDER_A, "QrA".to_string(), 10).expect("submit");
    // Unverified response: the disbursement is refused.
    let r = st.disburse(ADMIN_KEY, RESPONDER_A);
    assert_eq!(r.unwrap_err(), CoreError::Task(TaskError::Unauthorized));
    // A non-admin signer cannot verify.
    let r = st.verify(CREATOR, RESPONDER_A);
    assert_eq!(r.unwrap_err(), CoreError::Task(TaskError::Unauthorized));
    st.verify(ADMIN_KEY, RESPONDER_A).expect("verify");
    let paid = st.disburse(ADMIN_KEY, RESPONDER_A).expect("disburse");
    assert_eq!(paid, 100);
    assert_eq!(st.vault.balance, 831);
}
