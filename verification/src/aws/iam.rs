//! The IAM role and instance profile that let cluster instances use
//! Systems Manager: the documents they are created with, and what to do
//! after looking one up.

use vstd::prelude::*;

verus! {

/// The managed policy attached to the role.
pub const SSM_MANAGED_POLICY_ARN: &'static str = "arn:aws:iam::aws:policy/AmazonSSMManagedInstanceCore";

/// The description the role is created with.
pub const SSM_ROLE_DESCRIPTION: &'static str = "Role for EC2 instances to use Systems Manager";

/// The trust policy of the role: EC2 and Systems Manager may assume it.
pub const SSM_ROLE_TRUST_POLICY: &'static str = "{
            \"Version\": \"2012-10-17\",
            \"Statement\": [
                {
                    \"Effect\": \"Allow\",
                    \"Principal\": {
                        \"Service\": [
                            \"ec2.amazonaws.com\",
                            \"ssm.amazonaws.com\"
                        ]
                    },
                    \"Action\": \"sts:AssumeRole\"
                }
            ]
        }";

/// What a GetRole or GetInstanceProfile request gave.
pub enum IamLookup {
    /// The entity exists, with this id.
    Found { id: String },
    /// The answer holds no entity.
    Empty,
    /// The service reports that no entity has that name.
    NoSuchEntity,
    /// Any other failure.
    Failed,
}

/// What to do to make sure the entity exists.
pub enum IamEnsureDecision {
    /// It exists: use this id.
    Reuse { id: String },
    /// Create it.
    Create,
    /// The lookup failed.
    Fail,
}

/// An existing entity is reused; a missing one (no entity in the answer,
/// or none of that name) is created; a failed lookup fails.
pub fn iam_ensure_decision(lookup: IamLookup) -> (d: IamEnsureDecision)
    ensures
        match lookup {
            IamLookup::Found { id } => d matches IamEnsureDecision::Reuse { id: r } && r@ == id@,
            IamLookup::Empty | IamLookup::NoSuchEntity => d is Create,
            IamLookup::Failed => d is Fail,
        },
{
    match lookup {
        IamLookup::Found { id } => IamEnsureDecision::Reuse { id },
        IamLookup::Empty | IamLookup::NoSuchEntity => IamEnsureDecision::Create,
        IamLookup::Failed => IamEnsureDecision::Fail,
    }
}

/// What to do to remove the entity.
#[derive(Debug, Clone, Copy, PartialEq, Eq, Structural)]
pub enum IamCleanupDecision {
    /// It exists: detach what hangs on it, then delete it.
    Delete,
    /// It does not exist: nothing to do.
    Skip,
    /// The lookup failed.
    Fail,
}

/// An existing entity is deleted, a missing one is skipped, a failed lookup
/// fails.
pub fn iam_cleanup_decision(lookup: &IamLookup) -> (d: IamCleanupDecision)
    ensures
        d == match *lookup {
            IamLookup::Found { .. } => IamCleanupDecision::Delete,
            IamLookup::Empty | IamLookup::NoSuchEntity => IamCleanupDecision::Skip,
            IamLookup::Failed => IamCleanupDecision::Fail,
        },
{
    match lookup {
        IamLookup::Found { .. } => IamCleanupDecision::Delete,
        IamLookup::Empty | IamLookup::NoSuchEntity => IamCleanupDecision::Skip,
        IamLookup::Failed => IamCleanupDecision::Fail,
    }
}

} // verus!
