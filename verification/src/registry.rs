//! The owner registry: who may propose and approve, and how many approvals
//! make a quorum.

use vstd::prelude::*;
use crate::error::MultisigError;
use crate::pubkey::Pubkey;

verus! {

/// The largest number of owners a registry can hold.
pub const MAX_OWNERS: usize = 10;

/// The owner registry.
///
/// `owners` is ordered: a proposal's approvals are aligned to it by position.
/// `owners_version` counts the changes of the owner set and starts at 0; a
/// proposal remembers the version it was created under. `nonce` is the seed
/// from which the registry's signing authority is derived.
#[derive(Clone, Debug, PartialEq, Eq)]
pub struct Multisig {
    pub owners: Vec<Pubkey>,
    pub threshold: u64,
    pub nonce: u8,
    pub owners_version: u32,
}

/// A registry as a mathematical value.
pub struct MultisigView {
    pub owners: Seq<Pubkey>,
    pub threshold: u64,
    pub nonce: u8,
    pub owners_version: u32,
}

impl View for Multisig {
    type V = MultisigView;

    open spec fn view(&self) -> MultisigView {
        MultisigView {
            owners: self.owners@,
            threshold: self.threshold,
            nonce: self.nonce,
            owners_version: self.owners_version,
        }
    }
}

impl MultisigView {
    /// A registry is well formed when it has between one and `MAX_OWNERS`
    /// owners and its threshold is at least one and at most their number.
    pub open spec fn wf(self) -> bool {
        1 <= self.threshold <= self.owners.len() <= MAX_OWNERS
    }

    /// The bytes that the stored registry takes: an 8-byte tag, the owners as
    /// a 4-byte count and 32 bytes each, the threshold in 8 bytes, the seed
    /// in 1 and the version in 4.
    pub open spec fn stored_len(self) -> nat {
        8 + 4 + 32 * self.owners.len() + 8 + 1 + 4
    }
}

/// What `initialize` answers for each input.
///
/// The list of owners is examined first for being empty, then the threshold
/// against it, then its length against `MAX_OWNERS`. Owners listed twice are
/// accepted as given; such an owner still holds a single approval, at the
/// first position where the key stands.
pub open spec fn spec_initialize(owners: Seq<Pubkey>, threshold: u64, nonce: u8) -> Result<
    MultisigView,
    MultisigError,
> {
    if owners.len() == 0 {
        Err(MultisigError::InvalidOwners)
    } else if threshold < 1 || threshold > owners.len() {
        Err(MultisigError::InvalidThreshold)
    } else if owners.len() > MAX_OWNERS {
        Err(MultisigError::TooManyOwners)
    } else {
        Ok(MultisigView { owners, threshold, nonce, owners_version: 0 })
    }
}

/// Creates a registry with the given owners, threshold and authority seed.
///
/// Succeeds exactly when `1 <= threshold <= owners.len() <= MAX_OWNERS`; the
/// new registry then holds the arguments unchanged and starts at version 0.
/// Otherwise nothing is created and the error names the first rule broken.
pub fn initialize(owners: Vec<Pubkey>, threshold: u64, nonce: u8) -> (r: Result<
    Multisig,
    MultisigError,
>)
    ensures
        match r {
            Ok(multisig) => spec_initialize(owners@, threshold, nonce) == Ok::<
                MultisigView,
                MultisigError,
            >(multisig@),
            Err(e) => spec_initialize(owners@, threshold, nonce) == Err::<
                MultisigView,
                MultisigError,
            >(e),
        },
        r is Ok <==> 1 <= threshold <= owners@.len() <= MAX_OWNERS,
        r matches Ok(multisig) ==> multisig@.wf() && multisig.owners_version == 0,
        r == Err::<Multisig, MultisigError>(MultisigError::InvalidOwners) <==> owners@.len() == 0,
        r == Err::<Multisig, MultisigError>(MultisigError::InvalidThreshold) <==> owners@.len() > 0
            && !(1 <= threshold <= owners@.len()),
        r == Err::<Multisig, MultisigError>(MultisigError::TooManyOwners) <==> 1 <= threshold
            <= owners@.len() && owners@.len() > MAX_OWNERS,
{
    let n = owners.len();
    if n < 1 {
        return Err(MultisigError::InvalidOwners);
    }
    if threshold < 1 {
        return Err(MultisigError::InvalidThreshold);
    }
    if threshold > n as u64 {
        return Err(MultisigError::InvalidThreshold);
    }
    if n > MAX_OWNERS {
        return Err(MultisigError::TooManyOwners);
    }
    Ok(Multisig { owners, threshold, nonce, owners_version: 0 })
}

impl Multisig {
    /// The bytes to reserve for a stored registry of up to `max_owners`
    /// owners: what a registry of that many owners takes.
    pub open spec fn spec_space(max_owners: nat) -> nat {
        8 + 4 + 32 * max_owners + 8 + 1 + 4
    }

    /// The bytes to reserve for a stored registry of up to `max_owners` owners.
    pub fn space(max_owners: usize) -> (bytes: usize)
        requires
            Self::spec_space(max_owners as nat) <= usize::MAX,
        ensures
            bytes == Self::spec_space(max_owners as nat),
    {
        8 + 4 + 32 * max_owners + 8 + 1 + 4
    }

    /// The first position at which `key` stands among the owners, if it is one.
    pub fn owner_index(&self, key: &Pubkey) -> (r: Option<usize>)
        ensures
            match r {
                Some(i) => self@.owners.index_of_first(*key) == Some(i as int),
                None => self@.owners.index_of_first(*key) is None,
            },
            r is Some <==> self@.owners.contains(*key),
            r matches Some(i) ==> i < self@.owners.len() && self@.owners[i as int] == *key
                && forall|j: int| 0 <= j < i ==> self@.owners[j] != *key,
    {
        let n = self.owners.len();
        let mut i: usize = 0;
        while i < n
            invariant
                n == self.owners@.len(),
                i <= n,
                forall|j: int| 0 <= j < i ==> self.owners@[j] != *key,
            decreases n - i,
        {
            if self.owners[i] == *key {
                proof {
                    self.owners@.index_of_first_ensures(*key);
                }
                return Some(i);
            }
            i += 1;
        }
        proof {
            self.owners@.index_of_first_ensures(*key);
        }
        None
    }
}

} // verus!
