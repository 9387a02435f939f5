//! Configurable trust policy.
//!
//! Deployments of this design disagree on who may mark a task complete,
//! on whether completion additionally demands a full quorum of responses,
//! and on whether a freshly submitted response counts as verified. Rather
//! than hardcoding one rule, the policy is explicit data handed to every
//! operation it concerns.

use vstd::prelude::*;
use crate::states::AdminAccount;

verus! {

/// Who is authorized to mark a task complete.
#[derive(Clone, Copy, Debug, PartialEq, Eq, Structural)]
pub enum CompletionPolicy {
    AdminOnly,
    CreatorOnly,
    AdminOrCreator,
}

/// The full policy: completion authority, whether completion demands a
/// quorum of responses, and the verification flag a new response starts
/// with.
#[derive(Clone, Copy, Debug, PartialEq, Eq, Structural)]
pub struct Policy {
    pub completion: CompletionPolicy,
    pub require_quorum: bool,
    pub auto_verify_on_submit: bool,
}

impl Policy {
    /// The permissive rules: admin or creator may complete, no quorum is
    /// demanded of a manual completion, and responses count as verified on
    /// submission.
    pub fn permissive() -> (p: Policy)
        ensures
            p == (Policy {
                completion: CompletionPolicy::AdminOrCreator,
                require_quorum: false,
                auto_verify_on_submit: true,
            }),
    {
        Policy {
            completion: CompletionPolicy::AdminOrCreator,
            require_quorum: false,
            auto_verify_on_submit: true,
        }
    }

    /// The strict variant: only the admin completes, a quorum is demanded,
    /// and every response awaits explicit verification.
    pub fn strict_admin() -> (p: Policy)
        ensures
            p == (Policy {
                completion: CompletionPolicy::AdminOnly,
                require_quorum: true,
                auto_verify_on_submit: false,
            }),
    {
        Policy {
            completion: CompletionPolicy::AdminOnly,
            require_quorum: true,
            auto_verify_on_submit: false,
        }
    }
}

/// Whether `signer` may mark a task by `creator` complete under `policy`,
/// given the admin authority.
pub open spec fn completion_authorized(
    policy: CompletionPolicy,
    signer: u64,
    creator: u64,
    admin_authority: u64,
) -> bool {
    match policy {
        CompletionPolicy::AdminOnly => signer == admin_authority,
        CompletionPolicy::CreatorOnly => signer == creator,
        CompletionPolicy::AdminOrCreator => signer == admin_authority || signer == creator,
    }
}

/// Runtime check of `completion_authorized`.
pub fn is_completion_authorized(
    policy: CompletionPolicy,
    signer: u64,
    creator: u64,
    admin: &AdminAccount,
) -> (b: bool)
    ensures
        b == completion_authorized(policy, signer, creator, admin.authority),
{
    match policy {
        CompletionPolicy::AdminOnly => signer == admin.authority,
        CompletionPolicy::CreatorOnly => signer == creator,
        CompletionPolicy::AdminOrCreator => signer == admin.authority || signer == creator,
    }
}

} // verus!
