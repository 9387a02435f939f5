//! The escrow vault: deposits with a platform-fee split, reward
//! disbursement, and refund of the remainder.
//!
//! The vault record only accounts for the funds; the host ledger performs
//! the lamport movements. Every operation therefore returns the exact
//! amounts to move, and the caller owes the substrate a balanced transfer
//! (debit and credit of the same amount in the same atomic step).

use vstd::prelude::*;
use vstd::arithmetic::div_mod::lemma_div_is_ordered;
use vstd::arithmetic::div_mod::lemma_div_multiples_vanish;
use vstd::arithmetic::div_mod::lemma_div_pos_is_pos;
use vstd::arithmetic::div_mod::lemma_fundamental_div_mod;
use vstd::arithmetic::div_mod::lemma_mod_division_less_than_divisor;
use crate::errors::CoreError;
use crate::errors::RewardError;
use crate::errors::TaskError;
use crate::states::AdminAccount;
use crate::states::ResponseAccount;
use crate::states::RewardVaultAccount;
use crate::states::TaskAccount;
use crate::states::TaskView;

verus! {

/// Numerator of the platform fee: 6.9% expressed in thousandths.
pub const FEE_NUMERATOR: u64 = 69;

/// Denominator of the platform fee rate.
pub const FEE_DENOMINATOR: u64 = 1000;

/// The platform fee taken off a deposit, rounded down.
pub open spec fn platform_fee(amount: u64) -> int {
    (amount as int * FEE_NUMERATOR) / FEE_DENOMINATOR as int
}

/// What actually reaches the vault: the deposit net of the platform fee.
pub open spec fn net_deposit(amount: u64) -> int {
    amount - platform_fee(amount)
}

/// The fee is never negative and never exceeds the deposit, so the split
/// is exact: fee plus net equals the amount deposited.
pub proof fn lemma_fee_split(amount: u64)
    ensures
        0 <= platform_fee(amount) <= amount,
        platform_fee(amount) + net_deposit(amount) == amount,
{
    let a = amount as int;
    lemma_div_pos_is_pos(a * FEE_NUMERATOR, FEE_DENOMINATOR as int);
    lemma_div_is_ordered(a * FEE_NUMERATOR, a * FEE_DENOMINATOR, FEE_DENOMINATOR as int);
    lemma_div_multiples_vanish(a, FEE_DENOMINATOR as int);
}

/// Whether a deposit of `amount` into a vault holding `balance` goes
/// through: a positive amount whose fee computation and whose credit to
/// the vault both stay within `u64`.
pub open spec fn deposit_ok(balance: u64, amount: u64) -> bool {
    &&& amount > 0
    &&& amount as int * FEE_NUMERATOR <= u64::MAX
    &&& balance + net_deposit(amount) <= u64::MAX
}

/// The error a deposit fails with: a zero amount is rejected as such, and
/// any overflow surfaces as a failed transfer rather than wrapping.
pub open spec fn deposit_err(balance: u64, amount: u64) -> CoreError {
    if amount == 0 {
        CoreError::Reward(RewardError::InvalidDepositAmount)
    } else {
        CoreError::Reward(RewardError::TransferFailed)
    }
}

/// The two legs of a deposit: what the admin authority collects as the
/// platform fee, and what the vault is credited with.
#[derive(Clone, Copy, Debug, PartialEq, Eq, Structural)]
pub struct DepositReceipt {
    pub fee_to_admin: u64,
    pub net_to_vault: u64,
}

/// Deposit `amount` into the task's vault. The platform fee
/// (`amount * 69 / 1000`, rounded down) goes to the admin authority and
/// the remainder is credited to the vault, so the vault balance grows by
/// the net, not the amount; the two legs of the receipt always sum to
/// `amount`. All arithmetic is checked: a zero amount and any overflow
/// are rejected before the vault is touched.
pub fn deposit_funds(vault: &mut RewardVaultAccount, amount: u64) -> (r: Result<
    DepositReceipt,
    CoreError,
>)
    ensures
        r is Ok <==> deposit_ok(old(vault).balance, amount),
        r matches Ok(receipt) ==> {
            &&& receipt.fee_to_admin == platform_fee(amount)
            &&& receipt.net_to_vault == net_deposit(amount)
            &&& receipt.fee_to_admin + receipt.net_to_vault == amount
            &&& *final(vault) == (RewardVaultAccount {
                balance: (old(vault).balance + net_deposit(amount)) as u64,
                ..*old(vault)
            })
        },
        r matches Err(e) ==> e == deposit_err(old(vault).balance, amount)
            && *final(vault) == *old(vault),
{
    if amount == 0 {
        return Err(CoreError::Reward(RewardError::InvalidDepositAmount));
    }
    if amount > u64::MAX / FEE_NUMERATOR {
        proof {
            lemma_overflow_threshold(amount);
        }
        return Err(CoreError::Reward(RewardError::TransferFailed));
    }
    proof {
        lemma_overflow_threshold(amount);
    }
    let fee = amount * FEE_NUMERATOR / FEE_DENOMINATOR;
    proof {
        lemma_fee_split(amount);
    }
    let net = amount - fee;
    if vault.balance > u64::MAX - net {
        return Err(CoreError::Reward(RewardError::TransferFailed));
    }
    vault.balance = vault.balance + net;
    Ok(DepositReceipt { fee_to_admin: fee, net_to_vault: net })
}

/// The fee multiplication fits in `u64` exactly when the amount is at
/// most `u64::MAX / 69`.
proof fn lemma_overflow_threshold(amount: u64)
    ensures
        amount <= u64::MAX as int / FEE_NUMERATOR as int <==> amount as int * FEE_NUMERATOR
            <= u64::MAX,
{
    lemma_fundamental_div_mod(u64::MAX as int, FEE_NUMERATOR as int);
    lemma_mod_division_less_than_divisor(u64::MAX as int, FEE_NUMERATOR as int);
}

/// Whether a disbursement goes through, given a task, the recipient's
/// response, the admin authority and the signer: the task is complete,
/// the response is verified, the admin signed, and the vault covers one
/// reward.
pub open spec fn disburse_ok(
    t: TaskView,
    balance: u64,
    response_verified: bool,
    admin_authority: u64,
    signer: u64,
) -> bool {
    &&& t.is_complete
    &&& response_verified
    &&& signer == admin_authority
    &&& balance >= t.reward_per_response
}

/// The error a disbursement fails with, in the order the checks run.
pub open spec fn disburse_err(
    t: TaskView,
    balance: u64,
    response_verified: bool,
    admin_authority: u64,
    signer: u64,
) -> CoreError {
    if !t.is_complete {
        CoreError::Task(TaskError::TaskAlreadyComplete)
    } else if !response_verified {
        CoreError::Task(TaskError::Unauthorized)
    } else if signer != admin_authority {
        CoreError::Task(TaskError::Unauthorized)
    } else {
        CoreError::Reward(RewardError::InsufficientVaultBalance)
    }
}

/// Pay one reward from the vault to the responder behind `response`. The
/// amount is fixed to the task's `reward_per_response` — never a
/// caller-supplied value — and is returned so the substrate credits the
/// recipient in the same atomic step that debits the vault. Only the
/// admin authority may sign, the task must be complete, the response
/// verified, and the vault must cover the reward; on any failure the
/// vault is untouched.
pub fn disburse_rewards(
    task: &TaskAccount,
    vault: &mut RewardVaultAccount,
    response: &ResponseAccount,
    admin: &AdminAccount,
    signer: u64,
) -> (r: Result<u64, CoreError>)
    ensures
        r is Ok <==> disburse_ok(
            task@,
            old(vault).balance,
            response.is_verified,
            admin.authority,
            signer,
        ),
        r matches Ok(paid) ==> paid == task.reward_per_response && *final(vault)
            == (RewardVaultAccount {
            balance: (old(vault).balance - task.reward_per_response) as u64,
            ..*old(vault)
        }),
        r matches Err(e) ==> e == disburse_err(
            task@,
            old(vault).balance,
            response.is_verified,
            admin.authority,
            signer,
        ) && *final(vault) == *old(vault),
{
    if !task.is_complete {
        return Err(CoreError::Task(TaskError::TaskAlreadyComplete));
    }
    if !response.is_verified {
        return Err(CoreError::Task(TaskError::Unauthorized));
    }
    if signer != admin.authority {
        return Err(CoreError::Task(TaskError::Unauthorized));
    }
    let reward_amount = task.reward_per_response;
    if vault.balance < reward_amount {
        return Err(CoreError::Reward(RewardError::InsufficientVaultBalance));
    }
    vault.balance = vault.balance - reward_amount;
    Ok(reward_amount)
}

/// Whether the remainder may be refunded: the caller is the creator, the
/// task is not complete, and the deadline has not passed.
pub open spec fn refund_ok(t: TaskView, caller: u64, now: i64) -> bool {
    &&& caller == t.creator
    &&& !t.is_complete
    &&& now < t.deadline
}

/// The error a refund fails with, in the order the checks run.
pub open spec fn refund_err(t: TaskView, caller: u64, now: i64) -> CoreError {
    if caller != t.creator {
        CoreError::Task(TaskError::InvalidCreator)
    } else if t.is_complete {
        CoreError::Task(TaskError::TaskAlreadyComplete)
    } else {
        CoreError::Task(TaskError::DeadlinePassed)
    }
}

/// Return the whole remaining vault balance to the creator and zero the
/// vault; the emptied record is then closed by the substrate and its rent
/// returned to the creator. Only the creator may call this, only while
/// the task is incomplete and its deadline has not passed. The refunded
/// amount is returned for the substrate's balanced transfer.
pub fn refund_remaining(
    task: &TaskAccount,
    vault: &mut RewardVaultAccount,
    caller: u64,
    now: i64,
) -> (r: Result<u64, CoreError>)
    ensures
        r is Ok <==> refund_ok(task@, caller, now),
        r matches Ok(refunded) ==> refunded == old(vault).balance && *final(vault)
            == (RewardVaultAccount { balance: 0, ..*old(vault) }),
        r matches Err(e) ==> e == refund_err(task@, caller, now) && *final(vault) == *old(vault),
{
    if caller != task.creator {
        return Err(CoreError::Task(TaskError::InvalidCreator));
    }
    if task.is_complete {
        return Err(CoreError::Task(TaskError::TaskAlreadyComplete));
    }
    if now >= task.deadline {
        return Err(CoreError::Task(TaskError::DeadlinePassed));
    }
    let refunded = vault.balance;
    vault.balance = 0;
    Ok(refunded)
}

} // verus!
