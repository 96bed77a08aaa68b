//! Laws that relate the operations to each other.

use vstd::prelude::*;
use crate::error::MultisigError;
use crate::execution::{execution_refusal, spec_execute_transaction, spec_record_execution};
use crate::instruction::InstructionView;
use crate::proposal::{
    approval_count, lemma_approval_count_update, spec_approve, spec_create_transaction,
    Transaction, TransactionAccount, TransactionView, MAX_ACCOUNTS,
};
use crate::pubkey::Pubkey;
use crate::registry::{Multisig, MultisigView, MAX_OWNERS};

verus! {

/// Approving is idempotent: once an owner's approval has been recorded,
/// another approval by the same owner succeeds and leaves the proposal, and
/// so the number of its approvals, exactly as it was.
pub proof fn law_approve_idempotent(
    multisig_key: Pubkey,
    multisig: MultisigView,
    tx: TransactionView,
    owner: Pubkey,
)
    requires
        tx.aligned_to(multisig_key, multisig),
    ensures
        spec_approve(multisig_key, multisig, tx, owner) matches Ok(approved) ==> {
            &&& spec_approve(multisig_key, multisig, approved, owner) == Ok::<
                TransactionView,
                MultisigError,
            >(approved)
            &&& approval_count(approved.signers) == approval_count(
                spec_approve(multisig_key, multisig, approved, owner)->Ok_0.signers,
            )
        },
{
    multisig.owners.index_of_first_ensures(owner);
    if let Ok(approved) = spec_approve(multisig_key, multisig, tx, owner) {
        let i = multisig.owners.index_of_first(owner)->Some_0;
        assert(approved.signers.update(i, true) =~= approved.signers);
    }
}

/// An approval that is already recorded is not counted twice: where the
/// owner's approval stands, approving again changes nothing, whatever other
/// owners have approved in between.
pub proof fn law_approve_again_changes_nothing(
    multisig_key: Pubkey,
    multisig: MultisigView,
    tx: TransactionView,
    owner: Pubkey,
)
    requires
        tx.aligned_to(multisig_key, multisig),
        spec_approve(multisig_key, multisig, tx, owner) is Ok,
        tx.signers[multisig.owners.index_of_first(owner)->Some_0],
    ensures
        spec_approve(multisig_key, multisig, tx, owner) == Ok::<TransactionView, MultisigError>(tx),
{
    multisig.owners.index_of_first_ensures(owner);
    let i = multisig.owners.index_of_first(owner)->Some_0;
    assert(tx.signers.update(i, true) =~= tx.signers);
}

/// A first approval adds exactly one to the number of approvals.
pub proof fn law_first_approval_counts_once(
    multisig_key: Pubkey,
    multisig: MultisigView,
    tx: TransactionView,
    owner: Pubkey,
)
    requires
        tx.aligned_to(multisig_key, multisig),
        spec_approve(multisig_key, multisig, tx, owner) is Ok,
        !tx.signers[multisig.owners.index_of_first(owner)->Some_0],
    ensures
        approval_count(spec_approve(multisig_key, multisig, tx, owner)->Ok_0.signers)
            == approval_count(tx.signers) + 1,
{
    multisig.owners.index_of_first_ensures(owner);
    lemma_approval_count_update(tx.signers, multisig.owners.index_of_first(owner)->Some_0);
}

/// A proposal is executed at most once. Where a request for execution is
/// admitted, marking the proposal records the time read, which is not 0, so
/// the proposal is no longer pending; from then on every request to execute
/// it, against any registry, with any resources and at any time, is refused
/// with `AlreadyExecuted` before an instruction is materialized, and the
/// recorded time can no longer be changed.
pub proof fn law_executed_once(
    multisig_key: Pubkey,
    multisig: MultisigView,
    tx: TransactionView,
    remaining_accounts: nat,
    now: i64,
    other_key: Pubkey,
    other_multisig: MultisigView,
    multisig_signer: Pubkey,
    other_accounts: nat,
    later: i64,
)
    requires
        execution_refusal(multisig_key, multisig, tx, remaining_accounts, now) is None,
    ensures
        spec_record_execution(multisig_key, multisig, tx, remaining_accounts, now) matches Ok(
            executed,
        ) && {
            &&& executed.executed_at == now
            &&& executed.executed_at != 0
            &&& !executed.pending()
            &&& spec_execute_transaction(
                other_key,
                other_multisig,
                executed,
                multisig_signer,
                other_accounts,
                later,
            ) == Err::<InstructionView, MultisigError>(MultisigError::AlreadyExecuted)
            &&& spec_record_execution(other_key, other_multisig, executed, other_accounts, later)
                == Err::<TransactionView, MultisigError>(MultisigError::AlreadyExecuted)
        },
{
}

/// No success leaves a proposal pending: whatever the request, a proposal
/// that `record_execution` has marked carries a time of execution other
/// than 0, and a clock reading of 0 is refused at both steps.
pub proof fn law_execution_is_never_undone(
    multisig_key: Pubkey,
    multisig: MultisigView,
    tx: TransactionView,
    multisig_signer: Pubkey,
    remaining_accounts: nat,
    now: i64,
)
    ensures
        spec_record_execution(multisig_key, multisig, tx, remaining_accounts, now) matches Ok(
            executed,
        ) ==> !executed.pending() && executed.executed_at == now,
        now == 0 ==> spec_execute_transaction(
            multisig_key,
            multisig,
            tx,
            multisig_signer,
            remaining_accounts,
            now,
        ) is Err && spec_record_execution(multisig_key, multisig, tx, remaining_accounts, now)
            is Err,
{
}

/// Below quorum nothing is executed: a pending proposal with fewer approvals
/// than the threshold is refused with `NotEnoughSignatures` at both steps,
/// whatever else holds of the request, and so stays pending.
pub proof fn law_no_execution_below_quorum(
    multisig_key: Pubkey,
    multisig: MultisigView,
    tx: TransactionView,
    multisig_signer: Pubkey,
    remaining_accounts: nat,
    now: i64,
)
    requires
        tx.pending(),
        approval_count(tx.signers) < multisig.threshold,
    ensures
        spec_execute_transaction(
            multisig_key,
            multisig,
            tx,
            multisig_signer,
            remaining_accounts,
            now,
        ) == Err::<InstructionView, MultisigError>(MultisigError::NotEnoughSignatures),
        spec_record_execution(multisig_key, multisig, tx, remaining_accounts, now) == Err::<
            TransactionView,
            MultisigError,
        >(MultisigError::NotEnoughSignatures),
{
}

/// A proposal created under an owner set that has since been replaced is
/// stale for good: it can be neither approved nor executed. Every approval
/// of it is refused, and every request to execute it is refused at both
/// steps; the reason given is `OwnerSetChanged` wherever the conditions
/// examined before the owner set are met.
pub proof fn law_stale_proposal_is_dead(
    multisig_key: Pubkey,
    multisig: MultisigView,
    tx: TransactionView,
    owner: Pubkey,
    multisig_signer: Pubkey,
    remaining_accounts: nat,
    now: i64,
)
    requires
        tx.owners_version != multisig.owners_version,
    ensures
        spec_approve(multisig_key, multisig, tx, owner) is Err,
        tx.multisig == multisig_key ==> spec_approve(multisig_key, multisig, tx, owner) == Err::<
            TransactionView,
            MultisigError,
        >(MultisigError::OwnerSetChanged),
        spec_execute_transaction(
            multisig_key,
            multisig,
            tx,
            multisig_signer,
            remaining_accounts,
            now,
        ) is Err,
        spec_record_execution(multisig_key, multisig, tx, remaining_accounts, now) is Err,
        tx.pending() && approval_count(tx.signers) >= multisig.threshold && remaining_accounts
            == tx.accounts.len() && tx.multisig == multisig_key ==> {
            &&& spec_execute_transaction(
                multisig_key,
                multisig,
                tx,
                multisig_signer,
                remaining_accounts,
                now,
            ) == Err::<InstructionView, MultisigError>(MultisigError::OwnerSetChanged)
            &&& spec_record_execution(multisig_key, multisig, tx, remaining_accounts, now)
                == Err::<TransactionView, MultisigError>(MultisigError::OwnerSetChanged)
        },
{
}

/// A proposal that is marked as executed was pending, had its quorum,
/// belonged to the registry it was executed against and was created under
/// that registry's current owner set; and the time recorded is not 0.
pub proof fn law_executed_with_quorum(
    multisig_key: Pubkey,
    multisig: MultisigView,
    tx: TransactionView,
    remaining_accounts: nat,
    now: i64,
)
    requires
        spec_record_execution(multisig_key, multisig, tx, remaining_accounts, now) is Ok,
    ensures
        tx.pending(),
        approval_count(tx.signers) >= multisig.threshold,
        tx.multisig == multisig_key,
        tx.owners_version == multisig.owners_version,
        remaining_accounts == tx.accounts.len(),
        now != 0,
{
}

/// Approving never touches the time of execution, and it keeps the
/// approvals aligned to the owners.
pub proof fn law_approve_keeps_execution_state(
    multisig_key: Pubkey,
    multisig: MultisigView,
    tx: TransactionView,
    owner: Pubkey,
)
    requires
        tx.aligned_to(multisig_key, multisig),
    ensures
        spec_approve(multisig_key, multisig, tx, owner) matches Ok(approved) ==> {
            &&& approved.executed_at == tx.executed_at
            &&& approved.aligned_to(multisig_key, multisig)
            &&& approved.signers.len() == tx.signers.len()
        },
{
    multisig.owners.index_of_first_ensures(owner);
}

/// A key that is listed more than once among the owners holds a single
/// approval: a new proposal sets, and an approval can set, only the first
/// position at which a key stands, so every later position of the same key
/// stays as it was.
pub proof fn law_repeated_owner_has_one_vote(
    multisig_key: Pubkey,
    multisig: MultisigView,
    tx: TransactionView,
    owner: Pubkey,
    pid: Pubkey,
    accs: Seq<TransactionAccount>,
    data: Seq<u8>,
    later: int,
)
    requires
        tx.aligned_to(multisig_key, multisig),
        0 <= later < multisig.owners.len(),
        exists|first: int| 0 <= first < later && multisig.owners[first] == multisig.owners[later],
    ensures
        spec_approve(multisig_key, multisig, tx, owner) matches Ok(approved) ==> approved.signers[later]
            == tx.signers[later],
        spec_create_transaction(multisig_key, multisig, owner, pid, accs, data) matches Ok(created)
            ==> !created.signers[later],
{
    multisig.owners.index_of_first_ensures(owner);
}

/// The space reserved for a registry suffices: a well-formed registry takes
/// no more bytes than are reserved for `MAX_OWNERS` owners.
pub proof fn law_registry_fits_its_space(multisig: MultisigView)
    requires
        multisig.wf(),
    ensures
        multisig.stored_len() <= Multisig::spec_space(MAX_OWNERS as nat),
{
}

/// The space reserved for a proposal suffices: a proposal created for a
/// well-formed registry, with a payload of at most `max_data` bytes, takes no
/// more bytes than are reserved for `MAX_ACCOUNTS` resources and that
/// payload, and neither an approval nor its execution makes it grow.
pub proof fn law_proposal_fits_its_space(
    multisig_key: Pubkey,
    multisig: MultisigView,
    proposer: Pubkey,
    pid: Pubkey,
    accs: Seq<TransactionAccount>,
    data: Seq<u8>,
    max_data: nat,
    owner: Pubkey,
    remaining_accounts: nat,
    now: i64,
)
    requires
        multisig.wf(),
        data.len() <= max_data,
    ensures
        spec_create_transaction(multisig_key, multisig, proposer, pid, accs, data) matches Ok(tx)
            ==> {
            &&& tx.stored_len() <= Transaction::spec_space(MAX_ACCOUNTS as nat, max_data)
            &&& spec_approve(multisig_key, multisig, tx, owner) matches Ok(approved)
                ==> approved.stored_len() == tx.stored_len()
            &&& spec_record_execution(multisig_key, multisig, tx, remaining_accounts, now) matches Ok(
                executed,
            ) ==> executed.stored_len() == tx.stored_len()
        },
{
    multisig.owners.index_of_first_ensures(proposer);
    multisig.owners.index_of_first_ensures(owner);
    if let Ok(tx) = spec_create_transaction(multisig_key, multisig, proposer, pid, accs, data) {
        assert(tx.signers.len() <= MAX_OWNERS <= MAX_ACCOUNTS);
        assert(tx.accounts.len() * (32 + 1 + 1) <= MAX_ACCOUNTS * (32 + 1 + 1)) by (nonlinear_arith)
            requires
                tx.accounts.len() <= MAX_ACCOUNTS,
        ;
    }
}

} // verus!
