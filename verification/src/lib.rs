//! Core of a task-bounty marketplace: creators post tasks with a reward
//! escrow, responders submit work, an admin authority verifies responses,
//! and verified responders are paid from the task's vault.
//!
//! This library is the lifecycle and escrow state machine alone. The host
//! ledger (key-addressed storage, signature checks, lamport transfers,
//! rent) and the delegated fast-path execution venue are external
//! collaborators: account keys appear here as plain 64-bit identifiers,
//! the current time is an argument, and every operation that moves funds
//! returns the amount so the surrounding runtime can perform the actual
//! balanced transfer.

pub mod errors;
pub mod states;
pub mod policy;
pub mod init_admin;
pub mod task_manager;
pub mod response_manager;
pub mod reward_vault;
pub mod lifecycle;
pub mod laws;
