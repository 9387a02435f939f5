//! Error taxonomy of the marketplace core. Every failure is a terminal,
//! non-retryable validation failure surfaced to the caller; no operation
//! mutates any record before all of its checks have passed.

use vstd::prelude::*;

verus! {

/// General error codes shared across operations.
#[derive(Clone, Copy, Debug, PartialEq, Eq, Structural)]
pub enum ErrorCode {
    /// Input data too large.
    InputTooLarge,
    /// Task already marked complete.
    TaskAlreadyComplete,
    /// Not enough valid responses yet.
    NotEnoughResponses,
    /// Response already exists.
    ResponseAlreadyExists,
}

/// Errors of task creation, cancellation, completion and the response
/// registry.
#[derive(Clone, Copy, Debug, PartialEq, Eq, Structural)]
pub enum TaskError {
    /// Task ID must be non-zero.
    InvalidTaskId,
    /// Reward per response must be greater than zero.
    InvalidReward,
    /// Max responses must be greater than zero.
    InvalidMaxResponses,
    /// Deadline must be in the future.
    InvalidDeadline,
    /// CID cannot be empty.
    InvalidCID,
    /// Invalid creator.
    InvalidCreator,
    /// Task already marked complete.
    TaskAlreadyComplete,
    /// Deadline has already passed.
    DeadlinePassed,
    /// Max responses reached.
    MaxResponsesReached,
    /// Response already exists.
    ResponseAlreadyExists,
    /// Unauthorized.
    Unauthorized,
    /// Not enough responses yet.
    NotEnoughResponses,
    /// Cannot cancel task with responses unless deadline passed.
    InvalidCancellation,
    /// Response already verified.
    ResponseAlreadyVerified,
    /// Not enough verified responses to complete task.
    NotEnoughVerifiedResponses,
}

/// Errors of the escrow vault and of reward disbursement.
#[derive(Clone, Copy, Debug, PartialEq, Eq, Structural)]
pub enum RewardError {
    /// Failed to transfer lamports.
    TransferFailed,
    /// Invalid deposit amount.
    InvalidDepositAmount,
    /// Vault does not have enough balance.
    InsufficientVaultBalance,
    /// Task must be completed before disbursing rewards.
    TaskNotComplete,
    /// Response must be verified before receiving rewards.
    ResponseNotVerified,
    /// Reward amount exceeds the reward per response.
    ExcessiveRewardAmount,
}

/// Errors of delegation to the fast-path execution venue.
#[derive(Clone, Copy, Debug, PartialEq, Eq, Structural)]
pub enum MagicblockError {
    /// Failed to delegate task authority.
    DelegateFailed,
}

/// The one error type the operations return: each variant carries the
/// category the failure came from.
#[derive(Clone, Copy, Debug, PartialEq, Eq, Structural)]
pub enum CoreError {
    Code(ErrorCode),
    Task(TaskError),
    Reward(RewardError),
    Magicblock(MagicblockError),
}

} // verus!
