//! Persisted records of the marketplace core, and their ghost views.
//!
//! The host ledger addresses records by keys derived from `(creator,
//! task_id)` for a task, from the task's key for its vault, and from
//! `(task_key, responder)` for a response; signature verification and the
//! derivation itself are the ledger's, so a key is modeled here as a plain
//! `u64` identifier, and the `bump` fields only carry the derivation seed
//! the ledger handed out.

use vstd::prelude::*;

verus! {

/// Longest content identifier a task or response may carry.
pub const MAX_CID_LEN: usize = 100;

/// A content identifier is opaque: it only has to be non-empty and short
/// enough for the record's allotted storage, measured in encoded bytes.
pub open spec fn valid_cid(cid: Seq<char>) -> bool {
    0 < cid.len() && vstd::utf8::encode_utf8(cid).len() <= MAX_CID_LEN
}

/// The singleton admin record: the one authority permitted to sign
/// privileged operations (verification, disbursement, fee collection).
#[derive(Clone, Copy, Debug, PartialEq, Eq, Structural)]
pub struct AdminAccount {
    pub authority: u64,
    pub bump: u8,
}

/// A task: a unit of work posted with a reward pool, deadline and
/// response quota. Identity: `(creator, task_id)`.
#[derive(Clone, Debug)]
pub struct TaskAccount {
    pub task_id: u64,
    pub creator: u64,
    pub reward_per_response: u64,
    pub max_responses: u16,
    pub deadline: i64,
    pub responses_received: u16,
    pub is_complete: bool,
    pub bump: u8,
    pub cid: String,
}

/// Ghost view of a task: the same fields with the content identifier as a
/// sequence of characters.
#[verifier::ext_equal]
pub ghost struct TaskView {
    pub task_id: u64,
    pub creator: u64,
    pub reward_per_response: u64,
    pub max_responses: u16,
    pub deadline: i64,
    pub responses_received: u16,
    pub is_complete: bool,
    pub cid: Seq<char>,
}

impl View for TaskAccount {
    type V = TaskView;

    open spec fn view(&self) -> TaskView {
        TaskView {
            task_id: self.task_id,
            creator: self.creator,
            reward_per_response: self.reward_per_response,
            max_responses: self.max_responses,
            deadline: self.deadline,
            responses_received: self.responses_received,
            is_complete: self.is_complete,
            cid: self.cid@,
        }
    }
}

impl TaskView {
    /// Terms a task record holds from the moment it is created: validated
    /// inputs, and a response count inside the quota.
    pub open spec fn wf(self) -> bool {
        &&& self.task_id != 0
        &&& self.reward_per_response > 0
        &&& self.max_responses > 0
        &&& valid_cid(self.cid)
        &&& self.responses_received <= self.max_responses
    }
}

/// The escrow vault bound 1:1 to a task; `balance` is what remains
/// available for disbursement and refund.
#[derive(Clone, Copy, Debug, PartialEq, Eq, Structural)]
pub struct RewardVaultAccount {
    pub task_bump: u8,
    pub balance: u64,
    pub bump: u8,
}

/// A responder's submitted work product for one task. Identity:
/// `(task, responder)`, unique.
#[derive(Clone, Debug)]
pub struct ResponseAccount {
    pub task_bump: u8,
    pub responder: u64,
    pub timestamp: i64,
    pub is_verified: bool,
    pub bump: u8,
    pub cid: String,
}

/// Ghost view of a response.
#[verifier::ext_equal]
pub ghost struct ResponseView {
    pub responder: u64,
    pub timestamp: i64,
    pub is_verified: bool,
    pub cid: Seq<char>,
}

impl View for ResponseAccount {
    type V = ResponseView;

    open spec fn view(&self) -> ResponseView {
        ResponseView {
            responder: self.responder,
            timestamp: self.timestamp,
            is_verified: self.is_verified,
            cid: self.cid@,
        }
    }
}

/// Platform treasury record: the ledger slot fee income accumulates in.
#[derive(Clone, Copy, Debug, PartialEq, Eq, Structural)]
pub struct Treasury {
    pub task_bump: u8,
    pub balance: u64,
    pub bump: u8,
}

/// Per-responder earnings record.
#[derive(Clone, Copy, Debug, PartialEq, Eq, Structural)]
pub struct Responder {
    pub authority: u64,
    pub rewards: u64,
    pub responder_bump: u8,
}

/// Category of work a task asks for; opaque to the lifecycle rules.
#[derive(Clone, Copy, Debug, PartialEq, Eq, Structural)]
pub enum TaskType {
    LocationProof,
    Compute,
    BandwidthRelay,
    ZKProofGen,
}

} // verus!
