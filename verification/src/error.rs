//! The reasons for which a request is rejected.

use vstd::prelude::*;

verus! {

/// Why an operation was rejected. A rejected operation changes nothing.
#[derive(Clone, Copy, Debug, PartialEq, Eq, Structural)]
pub enum MultisigError {
    /// The caller is not one of the registry's owners.
    InvalidOwner,
    /// The threshold is zero or exceeds the number of owners.
    InvalidThreshold,
    /// The list of owners is empty.
    InvalidOwners,
    /// The proposal has been executed before.
    AlreadyExecuted,
    /// Fewer owners have approved than the threshold asks for.
    NotEnoughSignatures,
    /// The registry's owner set is no longer the one the proposal was made under.
    OwnerSetChanged,
    /// More owners than a registry can hold.
    TooManyOwners,
    /// More resources than a proposal can hold.
    TooManyAccounts,
    /// The proposal belongs to another registry.
    InvalidMultisig,
    /// The resources supplied for execution are not as many as the proposal declares.
    InvalidAccounts,
    /// The clock reads 0, which marks a proposal as not executed and so
    /// cannot stand for a time of execution.
    InvalidTimestamp,
}

impl MultisigError {
    /// The text shown to a caller for each rejection.
    pub open spec fn spec_message(self) -> Seq<char> {
        match self {
            MultisigError::InvalidOwner => "The given owner is not part of this multisig."@,
            MultisigError::InvalidThreshold => "Threshold must be > 0 and <= total owners."@,
            MultisigError::InvalidOwners => "Owners list cannot be empty."@,
            MultisigError::AlreadyExecuted => "Transaction has already been executed."@,
            MultisigError::NotEnoughSignatures => "Not enough signers to execute transaction."@,
            MultisigError::OwnerSetChanged => "The owner set has changed since the transaction was created."@,
            MultisigError::TooManyOwners => "Too many owners provided."@,
            MultisigError::TooManyAccounts => "Too many accounts in transaction."@,
            MultisigError::InvalidMultisig => "Invalid multisig account."@,
            MultisigError::InvalidAccounts => "Invalid accounts provided for execution."@,
            MultisigError::InvalidTimestamp => "The time of execution cannot be 0."@,
        }
    }

    /// The text shown to a caller for this rejection.
    pub fn message(&self) -> (text: String)
        ensures
            text@ == self.spec_message(),
    {
        match self {
            MultisigError::InvalidOwner => "The given owner is not part of this multisig.".to_owned(),
            MultisigError::InvalidThreshold => "Threshold must be > 0 and <= total owners.".to_owned(),
            MultisigError::InvalidOwners => "Owners list cannot be empty.".to_owned(),
            MultisigError::AlreadyExecuted => "Transaction has already been executed.".to_owned(),
            MultisigError::NotEnoughSignatures => "Not enough signers to execute transaction.".to_owned(),
            MultisigError::OwnerSetChanged => "The owner set has changed since the transaction was created.".to_owned(),
            MultisigError::TooManyOwners => "Too many owners provided.".to_owned(),
            MultisigError::TooManyAccounts => "Too many accounts in transaction.".to_owned(),
            MultisigError::InvalidMultisig => "Invalid multisig account.".to_owned(),
            MultisigError::InvalidAccounts => "Invalid accounts provided for execution.".to_owned(),
            MultisigError::InvalidTimestamp => "The time of execution cannot be 0.".to_owned(),
        }
    }
}

} // verus!
