//! Escrow vault: deposits with the fee split, disbursement, refund.

use task_bounty::errors::CoreError;
use task_bounty::errors::RewardError;
use task_bounty::errors::TaskError;
use task_bounty::reward_vault::deposit_funds;
use task_bounty::reward_vault::disburse_rewards;
use task_bounty::reward_vault::refund_remaining;
use task_bounty::states::AdminAccount;
use task_bounty::states::ResponseAccount;
use task_bounty::states::RewardVaultAccount;
use task_bounty::states::TaskAccount;

fn vault(balance: u64) -> RewardVaultAccount {
    RewardVaultAccount { task_bump: 0, balance, bump: 0 }
}

fn task(reward: u64, complete: bool) -> TaskAccount {
    TaskAccount {
        task_id: 1,
        creator: 7,
        reward_per_response: reward,
        max_responses: 2,
        deadline: 3600,
        responses_received: 0,
        is_complete: complete,
        bump: 0,
        cid: "Qm1".to_string(),
    }
}

fn response(verified: bool) -> ResponseAccount {
    ResponseAccount {
        task_bump: 0,
        responder: 100,
        timestamp: 10,
        is_verified: verified,
        bump: 0,
        cid: "Qr1".to_string(),
    }
}

fn admin() -> AdminAccount {
    AdminAccount { authority: 42, bump: 0 }
}

#[test]
fn deposit_fee_split_exact() {
    // 6.9% of 1000, rounded down: fee 69, net 931, and the legs sum to 1000.
    let mut v = vault(0);
    let receipt = deposit_funds(&mut v, 1000).expect("deposit must succeed");
    assert_eq!(receipt.fee_to_admin, 69);
    assert_eq!(receipt.net_to_vault, 931);
    assert_eq!(receipt.fee_to_admin + receipt.net_to_vault, 1000);
    assert_eq!(v.balance, 931);
}

#[test]
fn deposit_small_amount_fee_rounds_to_zero() {
    // 69 * 14 / 1000 == 0: everything reaches the vault.
    let mut v = vault(0);
    let receipt = deposit_funds(&mut v, 14).expect("deposit must succeed");
    assert_eq!(receipt.fee_to_admin, 0);
    assert_eq!(receipt.net_to_vault, 14);
    assert_eq!(v.balance, 14);
}

#[test]
fn deposit_accumulates() {
    let mut v = vault(0);
    deposit_funds(&mut v, 1000).expect("first deposit");
    deposit_funds(&mut v, 1000).expect("second deposit");
    assert_eq!(v.balance, 1862);
}

#[test]
fn deposit_zero_rejected() {
    let mut v = vault(5);
    let r = deposit_funds(&mut v, 0);
    assert_eq!(r.unwrap_err(), CoreError::Reward(RewardError::InvalidDepositAmount));
    assert_eq!(v.balance, 5);
}

#[test]
fn deposit_fee_overflow_rejected() {
    // u64::MAX * 69 does not fit in u64.
    let mut v = vault(0);
    let r = deposit_funds(&mut v, u64::MAX);
    assert_eq!(r.unwrap_err(), CoreError::Reward(RewardError::TransferFailed));
    assert_eq!(v.balance, 0);
}

#[test]
fn deposit_balance_overflow_rejected() {
    let mut v = vault(u64::MAX - 10);
    let r = deposit_funds(&mut v, 1000);
    assert_eq!(r.unwrap_err(), CoreError::Reward(RewardError::TransferFailed));
    assert_eq!(v.balance, u64::MAX - 10);
}

#[test]
fn disburse_pays_one_reward() {
    let mut v = vault(931);
    let paid = disburse_rewards(&task(100, true), &mut v, &response(true), &admin(), 42)
        .expect("disburse must succeed");
    assert_eq!(paid, 100);
    assert_eq!(v.balance, 831);
}

#[test]
fn disburse_insufficient_balance_rejected_and_balance_unchanged() {
    let mut v = vault(99);
    let r = disburse_rewards(&task(100, true), &mut v, &response(true), &admin(), 42);
    assert_eq!(r.unwrap_err(), CoreError::Reward(RewardError::InsufficientVaultBalance));
    assert_eq!(v.balance, 99);
}

#[test]
fn disburse_incomplete_task_rejected() {
    let mut v = vault(931);
    let r = disburse_rewards(&task(100, false), &mut v, &response(true), &admin(), 42);
    assert_eq!(r.unwrap_err(), CoreError::Task(TaskError::TaskAlreadyComplete));
    assert_eq!(v.balance, 931);
}

#[test]
fn disburse_unverified_response_rejected() {
    let mut v = vault(931);
    let r = disburse_rewards(&task(100, true), &mut v, &response(false), &admin(), 42);
    assert_eq!(r.unwrap_err(), CoreError::Task(TaskError::Unauthorized));
    assert_eq!(v.balance, 931);
}

#[test]
fn disburse_wrong_signer_rejected() {
    let mut v = vault(931);
    let r = disburse_rewards(&task(100, true), &mut v, &response(true), &admin(), 41);
    assert_eq!(r.unwrap_err(), CoreError::Task(TaskError::Unauthorized));
    assert_eq!(v.balance, 931);
}

#[test]
fn refund_returns_whole_balance_and_zeroes_vault() {
    let mut v = vault(931);
    let refunded = refund_remaining(&task(100, false), &mut v, 7, 100).expect("refund");
    assert_eq!(refunded, 931);
    assert_eq!(v.balance, 0);
}

#[test]
fn refund_wrong_caller_rejected() {
    let mut v = vault(931);
    let r = refund_remaining(&task(100, false), &mut v, 8, 100);
    assert_eq!(r.unwrap_err(), CoreError::Task(TaskError::InvalidCreator));
    assert_eq!(v.balance, 931);
}

#[test]
fn refund_complete_task_rejected() {
    let mut v = vault(931);
    let r = refund_remaining(&task(100, true), &mut v, 7, 100);
    assert_eq!(r.unwrap_err(), CoreError::Task(TaskError::TaskAlreadyComplete));
    assert_eq!(v.balance, 931);
}

#[test]
fn refund_after_deadline_rejected() {
    let mut v = vault(931);
    let r = refund_remaining(&task(100, false), &mut v, 7, 3600);
    assert_eq!(r.unwrap_err(), CoreError::Task(TaskError::DeadlinePassed));
    assert_eq!(v.balance, 931);
}
