//! Proposals: an action awaiting quorum, and the approvals it has gathered.

use vstd::prelude::*;
use crate::error::MultisigError;
use crate::pubkey::Pubkey;
use crate::registry::{Multisig, MultisigView};

verus! {

/// The largest number of resources a proposal can declare.
pub const MAX_ACCOUNTS: usize = 20;

/// A resource that a proposal's action refers to.
#[derive(Clone, Copy, Debug, PartialEq, Eq)]
pub struct TransactionAccount {
    pub pubkey: Pubkey,
    pub is_signer: bool,
    pub is_writable: bool,
}

/// A proposal: one action, pending or executed.
///
/// `multisig` names the registry the proposal belongs to. `signers` holds one
/// approval per owner, in the order of the registry's owners at the time of
/// creation, and `owners_version` is the registry's version at that time.
/// `executed_at` is 0 until the proposal is executed and the time of
/// execution afterwards.
#[derive(Clone, Debug, PartialEq, Eq)]
pub struct Transaction {
    pub multisig: Pubkey,
    pub program_id: Pubkey,
    pub accounts: Vec<TransactionAccount>,
    pub data: Vec<u8>,
    pub signers: Vec<bool>,
    pub executed_at: i64,
    pub owners_version: u32,
}

/// A proposal as a mathematical value.
pub struct TransactionView {
    pub multisig: Pubkey,
    pub program_id: Pubkey,
    pub accounts: Seq<TransactionAccount>,
    pub data: Seq<u8>,
    pub signers: Seq<bool>,
    pub executed_at: i64,
    pub owners_version: u32,
}

impl View for Transaction {
    type V = TransactionView;

    open spec fn view(&self) -> TransactionView {
        TransactionView {
            multisig: self.multisig,
            program_id: self.program_id,
            accounts: self.accounts@,
            data: self.data@,
            signers: self.signers@,
            executed_at: self.executed_at,
            owners_version: self.owners_version,
        }
    }
}

/// The number of approvals given: how many entries of `signers` are true.
pub open spec fn approval_count(signers: Seq<bool>) -> nat
    decreases signers.len(),
{
    if signers.len() == 0 {
        0
    } else {
        approval_count(signers.drop_last()) + if signers.last() {
            1nat
        } else {
            0nat
        }
    }
}

/// The approvals of a fresh proposal for `owners` owners: the creator's, at
/// position `creator`, and no other.
pub open spec fn initial_approvals(owners: nat, creator: int) -> Seq<bool> {
    Seq::new(owners, |i: int| i == creator)
}

impl TransactionView {
    /// The proposal is still pending.
    pub open spec fn pending(self) -> bool {
        self.executed_at == 0
    }

    /// The proposal's approvals are aligned to the owners of the registry
    /// stored under `multisig_key`: where the proposal belongs to that
    /// registry and was created under its current owner set, it holds one
    /// approval per owner.
    pub open spec fn aligned_to(self, multisig_key: Pubkey, multisig: MultisigView) -> bool {
        self.multisig == multisig_key && self.owners_version == multisig.owners_version
            ==> self.signers.len() == multisig.owners.len()
    }

    /// The bytes that the stored proposal takes: an 8-byte tag, two keys of
    /// 32 bytes, the resources as a 4-byte count and 34 bytes each, the
    /// payload as a 4-byte count and its bytes, the approvals as a 4-byte
    /// count and one byte each, the time of execution in 8 bytes and the
    /// version in 4.
    pub open spec fn stored_len(self) -> nat {
        8 + 32 + 32 + 4 + self.accounts.len() * (32 + 1 + 1) + 4 + self.data.len() + 4
            + self.signers.len() + 8 + 4
    }
}

/// Setting one approval adds one to the count if it was not given before and
/// leaves the count as it was if it was.
pub proof fn lemma_approval_count_update(signers: Seq<bool>, i: int)
    requires
        0 <= i < signers.len(),
    ensures
        approval_count(signers.update(i, true)) == approval_count(signers) + if signers[i] {
            0nat
        } else {
            1nat
        },
    decreases signers.len(),
{
    let updated = signers.update(i, true);
    if i == signers.len() - 1 {
        assert(updated.drop_last() =~= signers.drop_last());
    } else {
        assert(updated.drop_last() =~= signers.drop_last().update(i, true));
        lemma_approval_count_update(signers.drop_last(), i);
    }
}

/// Where no approval is given, the count is 0.
pub proof fn lemma_approval_count_none(signers: Seq<bool>)
    requires
        forall|i: int| 0 <= i < signers.len() ==> !signers[i],
    ensures
        approval_count(signers) == 0,
    decreases signers.len(),
{
    if signers.len() > 0 {
        lemma_approval_count_none(signers.drop_last());
    }
}

/// A fresh proposal carries exactly one approval.
pub proof fn lemma_initial_approvals(owners: nat, creator: int)
    requires
        0 <= creator < owners,
    ensures
        approval_count(initial_approvals(owners, creator)) == 1,
        initial_approvals(owners, creator).len() == owners,
        forall|i: int|
            0 <= i < owners ==> (#[trigger] initial_approvals(owners, creator)[i] <==> i
                == creator),
{
    let blank = Seq::new(owners, |i: int| false);
    lemma_approval_count_none(blank);
    lemma_approval_count_update(blank, creator);
    assert(blank.update(creator, true) =~= initial_approvals(owners, creator));
}

/// What `create_transaction` answers for each input.
pub open spec fn spec_create_transaction(
    multisig_key: Pubkey,
    multisig: MultisigView,
    proposer: Pubkey,
    pid: Pubkey,
    accs: Seq<TransactionAccount>,
    data: Seq<u8>,
) -> Result<TransactionView, MultisigError> {
    match multisig.owners.index_of_first(proposer) {
        None => Err(MultisigError::InvalidOwner),
        Some(creator) => if accs.len() > MAX_ACCOUNTS {
            Err(MultisigError::TooManyAccounts)
        } else {
            Ok(
                TransactionView {
                    multisig: multisig_key,
                    program_id: pid,
                    accounts: accs,
                    data,
                    signers: initial_approvals(multisig.owners.len(), creator),
                    executed_at: 0,
                    owners_version: multisig.owners_version,
                },
            )
        },
    }
}

/// What `approve` answers for each input: the proposal after the approval,
/// or the reason for which it is refused.
pub open spec fn spec_approve(
    multisig_key: Pubkey,
    multisig: MultisigView,
    tx: TransactionView,
    owner: Pubkey,
) -> Result<TransactionView, MultisigError> {
    if tx.multisig != multisig_key {
        Err(MultisigError::InvalidMultisig)
    } else if tx.owners_version != multisig.owners_version {
        Err(MultisigError::OwnerSetChanged)
    } else {
        match multisig.owners.index_of_first(owner) {
            None => Err(MultisigError::InvalidOwner),
            Some(i) => Ok(TransactionView { signers: tx.signers.update(i, true), ..tx }),
        }
    }
}

/// Creates a proposal for the registry stored under `multisig_key`, on
/// behalf of `proposer`.
///
/// `proposer` must be one of the registry's owners, else the answer is
/// `InvalidOwner`; the action may declare at most `MAX_ACCOUNTS` resources,
/// else it is `TooManyAccounts`. The new proposal is pending, remembers the
/// registry and its current version, and carries exactly one approval, the
/// proposer's.
pub fn create_transaction(
    multisig_key: Pubkey,
    multisig: &Multisig,
    proposer: &Pubkey,
    pid: Pubkey,
    accs: Vec<TransactionAccount>,
    data: Vec<u8>,
) -> (r: Result<Transaction, MultisigError>)
    ensures
        match r {
            Ok(tx) => spec_create_transaction(
                multisig_key,
                multisig@,
                *proposer,
                pid,
                accs@,
                data@,
            ) == Ok::<TransactionView, MultisigError>(tx@),
            Err(e) => spec_create_transaction(
                multisig_key,
                multisig@,
                *proposer,
                pid,
                accs@,
                data@,
            ) == Err::<TransactionView, MultisigError>(e),
        },
        r is Ok <==> multisig@.owners.contains(*proposer) && accs@.len() <= MAX_ACCOUNTS,
        !multisig@.owners.contains(*proposer) ==> r == Err::<Transaction, MultisigError>(
            MultisigError::InvalidOwner,
        ),
        r matches Ok(tx) ==> {
            &&& approval_count(tx@.signers) == 1
            &&& tx@.signers.len() == multisig@.owners.len()
            &&& tx@.pending()
            &&& tx@.aligned_to(multisig_key, multisig@)
            &&& multisig@.owners.index_of_first(*proposer) matches Some(creator) && 0 <= creator
                < tx@.signers.len() && forall|i: int|
                0 <= i < tx@.signers.len() ==> (#[trigger] tx@.signers[i] <==> i == creator)
        },
{
    proof {
        multisig@.owners.index_of_first_ensures(*proposer);
    }
    let owner_index = match multisig.owner_index(proposer) {
        Some(i) => i,
        None => {
            return Err(MultisigError::InvalidOwner);
        },
    };
    if accs.len() > MAX_ACCOUNTS {
        return Err(MultisigError::TooManyAccounts);
    }
    let mut signers: Vec<bool> = vec![false; multisig.owners.len()];
    signers[owner_index] = true;
    proof {
        lemma_initial_approvals(multisig@.owners.len(), owner_index as int);
        assert(signers@ =~= initial_approvals(multisig@.owners.len(), owner_index as int));
    }
    Ok(
        Transaction {
            multisig: multisig_key,
            program_id: pid,
            accounts: accs,
            data,
            signers,
            executed_at: 0,
            owners_version: multisig.owners_version,
        },
    )
}

/// Records the approval of `owner` on a proposal of the registry stored under
/// `multisig_key`.
///
/// The proposal must belong to that registry (else `InvalidMultisig`), must
/// have been created under the registry's current owner set (else
/// `OwnerSetChanged`), and `owner` must be one of the owners (else
/// `InvalidOwner`); the three are examined in this order. On success the
/// owner's approval is set and nothing else changes; approving again changes
/// nothing at all. A refused approval leaves the proposal as it was.
pub fn approve(multisig_key: &Pubkey, multisig: &Multisig, tx: &mut Transaction, owner: &Pubkey) -> (r:
    Result<(), MultisigError>)
    requires
        old(tx)@.aligned_to(*multisig_key, multisig@),
    ensures
        match r {
            Ok(()) => spec_approve(*multisig_key, multisig@, old(tx)@, *owner) == Ok::<
                TransactionView,
                MultisigError,
            >(final(tx)@),
            Err(e) => spec_approve(*multisig_key, multisig@, old(tx)@, *owner) == Err::<
                TransactionView,
                MultisigError,
            >(e) && final(tx)@ == old(tx)@,
        },
        r is Ok <==> old(tx)@.multisig == *multisig_key && old(tx)@.owners_version
            == multisig.owners_version && multisig@.owners.contains(*owner),
        r is Ok ==> {
            let i = multisig@.owners.index_of_first(*owner)->Some_0;
            &&& multisig@.owners.index_of_first(*owner) is Some
            &&& 0 <= i < old(tx)@.signers.len()
            &&& final(tx)@.signers[i]
            &&& old(tx)@.signers[i] ==> final(tx)@ == old(tx)@
            &&& approval_count(final(tx)@.signers) == approval_count(old(tx)@.signers) + if old(
                tx,
            )@.signers[i] {
                0nat
            } else {
                1nat
            }
        },
        final(tx)@.executed_at == old(tx)@.executed_at,
        final(tx)@.aligned_to(*multisig_key, multisig@),
{
    if tx.multisig != *multisig_key {
        return Err(MultisigError::InvalidMultisig);
    }
    if tx.owners_version != multisig.owners_version {
        return Err(MultisigError::OwnerSetChanged);
    }
    proof {
        multisig@.owners.index_of_first_ensures(*owner);
    }
    let owner_index = match multisig.owner_index(owner) {
        Some(i) => i,
        None => {
            return Err(MultisigError::InvalidOwner);
        },
    };
    proof {
        lemma_approval_count_update(tx@.signers, owner_index as int);
        if tx@.signers[owner_index as int] {
            assert(tx@.signers.update(owner_index as int, true) =~= tx@.signers);
        }
    }
    tx.signers[owner_index] = true;
    Ok(())
}

impl Transaction {
    /// Whether the approvals are aligned to the owners of the registry stored
    /// under `multisig_key`, as `approve` asks.
    pub fn is_aligned_to(&self, multisig_key: &Pubkey, multisig: &Multisig) -> (r: bool)
        ensures
            r == self@.aligned_to(*multisig_key, multisig@),
    {
        self.multisig != *multisig_key || self.owners_version != multisig.owners_version
            || self.signers.len() == multisig.owners.len()
    }

    /// The number of approvals given so far.
    pub fn approvals(&self) -> (n: usize)
        ensures
            n == approval_count(self@.signers),
    {
        let total = self.signers.len();
        let mut n: usize = 0;
        let mut i: usize = 0;
        while i < total
            invariant
                total == self.signers@.len(),
                i <= total,
                n <= i,
                n == approval_count(self.signers@.take(i as int)),
            decreases total - i,
        {
            assert(self.signers@.take(i + 1).drop_last() =~= self.signers@.take(i as int));
            if self.signers[i] {
                n += 1;
            }
            i += 1;
        }
        assert(self.signers@.take(total as int) =~= self.signers@);
        n
    }

    /// The bytes to reserve for a stored proposal of up to `max_accounts`
    /// resources and `max_data` bytes of payload: what a proposal with that
    /// many resources, that much payload and as many approvals as resources
    /// takes.
    pub open spec fn spec_space(max_accounts: nat, max_data: nat) -> nat {
        8 + 32 + 32 + 4 + max_accounts * (32 + 1 + 1) + 4 + max_data + 4 + max_accounts + 8 + 4
    }

    /// The bytes to reserve for a stored proposal of up to `max_accounts`
    /// resources and `max_data` bytes of payload.
    pub fn space(max_accounts: usize, max_data: usize) -> (bytes: usize)
        requires
            Self::spec_space(max_accounts as nat, max_data as nat) <= usize::MAX,
        ensures
            bytes == Self::spec_space(max_accounts as nat, max_data as nat),
    {
        8 + 32 + 32 + 4 + max_accounts * (32 + 1 + 1) + 4 + max_data + 4 + max_accounts + 8 + 4
    }
}

} // verus!
