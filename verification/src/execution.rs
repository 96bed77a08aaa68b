//! Quorum evaluation and the one-time transition of a proposal from pending
//! to executed.
//!
//! Executing a proposal takes two steps around the host's invocation of the
//! action. The caller reads the clock first. `execute_transaction` decides
//! whether the proposal may run at that time and, if so, hands out the
//! instruction to invoke; it changes nothing. The caller invokes that
//! instruction and, only if the invocation succeeded, has `record_execution`
//! mark the proposal as executed at the time read. Both steps hold the
//! request to the same conditions, so that no proposal is ever marked as
//! executed without its quorum, under an owner set that has been replaced,
//! or at a time that would leave it pending.

use vstd::prelude::*;
use crate::error::MultisigError;
use crate::instruction::{spec_to_instruction, Instruction, InstructionView};
use crate::proposal::{approval_count, Transaction, TransactionView};
use crate::pubkey::Pubkey;
use crate::registry::{Multisig, MultisigView};

verus! {

/// Why a proposal may not be executed at the time `now` against the registry
/// stored under `multisig_key` with `remaining_accounts` resources supplied,
/// or `None` where it may. The conditions are examined in the order in which
/// they stand here, and the first one that fails gives the reason.
///
/// A proposal created under an owner set that has since been replaced is
/// never executed, whatever approvals it gathered before. A clock reading of
/// 0 is refused, because 0 as the time of execution means that the proposal
/// is pending.
pub open spec fn execution_refusal(
    multisig_key: Pubkey,
    multisig: MultisigView,
    tx: TransactionView,
    remaining_accounts: nat,
    now: i64,
) -> Option<MultisigError> {
    if tx.executed_at != 0 {
        Some(MultisigError::AlreadyExecuted)
    } else if approval_count(tx.signers) < multisig.threshold {
        Some(MultisigError::NotEnoughSignatures)
    } else if remaining_accounts != tx.accounts.len() {
        Some(MultisigError::InvalidAccounts)
    } else if tx.multisig != multisig_key {
        Some(MultisigError::InvalidMultisig)
    } else if tx.owners_version != multisig.owners_version {
        Some(MultisigError::OwnerSetChanged)
    } else if now == 0 {
        Some(MultisigError::InvalidTimestamp)
    } else {
        None
    }
}

/// What `execute_transaction` answers for each input.
pub open spec fn spec_execute_transaction(
    multisig_key: Pubkey,
    multisig: MultisigView,
    tx: TransactionView,
    multisig_signer: Pubkey,
    remaining_accounts: nat,
    now: i64,
) -> Result<InstructionView, MultisigError> {
    match execution_refusal(multisig_key, multisig, tx, remaining_accounts, now) {
        Some(e) => Err(e),
        None => Ok(spec_to_instruction(tx, multisig_signer)),
    }
}

/// What `record_execution` answers for each input: the proposal after it has
/// been marked as executed at `now`, or the reason for which it is not
/// marked.
pub open spec fn spec_record_execution(
    multisig_key: Pubkey,
    multisig: MultisigView,
    tx: TransactionView,
    remaining_accounts: nat,
    now: i64,
) -> Result<TransactionView, MultisigError> {
    match execution_refusal(multisig_key, multisig, tx, remaining_accounts, now) {
        Some(e) => Err(e),
        None => Ok(TransactionView { executed_at: now, ..tx }),
    }
}

/// Holds a request for execution to the conditions of `execution_refusal`.
fn check_execution(
    multisig_key: &Pubkey,
    multisig: &Multisig,
    tx: &Transaction,
    remaining_accounts: usize,
    now: i64,
) -> (r: Result<(), MultisigError>)
    ensures
        match r {
            Ok(()) => execution_refusal(
                *multisig_key,
                multisig@,
                tx@,
                remaining_accounts as nat,
                now,
            ) is None,
            Err(e) => execution_refusal(
                *multisig_key,
                multisig@,
                tx@,
                remaining_accounts as nat,
                now,
            ) == Some(e),
        },
{
    if tx.executed_at != 0 {
        return Err(MultisigError::AlreadyExecuted);
    }
    let approvals = tx.approvals();
    if (approvals as u64) < multisig.threshold {
        return Err(MultisigError::NotEnoughSignatures);
    }
    if remaining_accounts != tx.accounts.len() {
        return Err(MultisigError::InvalidAccounts);
    }
    if tx.multisig != *multisig_key {
        return Err(MultisigError::InvalidMultisig);
    }
    if tx.owners_version != multisig.owners_version {
        return Err(MultisigError::OwnerSetChanged);
    }
    if now == 0 {
        return Err(MultisigError::InvalidTimestamp);
    }
    Ok(())
}

/// Decides whether a proposal may be executed at the time `now` against the
/// registry stored under `multisig_key`, and if so materializes its action.
///
/// `multisig_signer` is the registry's signing authority,
/// `remaining_accounts` the number of resources supplied for the execution
/// and `now` the clock's reading. The proposal must be pending (else
/// `AlreadyExecuted`), must carry at least `threshold` approvals (else
/// `NotEnoughSignatures`), must declare exactly as many resources as are
/// supplied (else `InvalidAccounts`), must belong to the registry (else
/// `InvalidMultisig`) and must have been created under the registry's
/// current owner set (else `OwnerSetChanged`); the clock must not read 0
/// (else `InvalidTimestamp`). The six are examined in this order. The
/// proposal is only read: whatever the answer, it stays as it is.
pub fn execute_transaction(
    multisig_key: &Pubkey,
    multisig: &Multisig,
    tx: &Transaction,
    multisig_signer: &Pubkey,
    remaining_accounts: usize,
    now: i64,
) -> (r: Result<Instruction, MultisigError>)
    ensures
        match r {
            Ok(ix) => spec_execute_transaction(
                *multisig_key,
                multisig@,
                tx@,
                *multisig_signer,
                remaining_accounts as nat,
                now,
            ) == Ok::<InstructionView, MultisigError>(ix@),
            Err(e) => spec_execute_transaction(
                *multisig_key,
                multisig@,
                tx@,
                *multisig_signer,
                remaining_accounts as nat,
                now,
            ) == Err::<InstructionView, MultisigError>(e),
        },
        r is Ok <==> tx@.pending() && approval_count(tx@.signers) >= multisig.threshold
            && remaining_accounts == tx@.accounts.len() && tx.multisig == *multisig_key
            && tx.owners_version == multisig.owners_version && now != 0,
        !tx@.pending() ==> r == Err::<Instruction, MultisigError>(MultisigError::AlreadyExecuted),
        tx@.pending() && approval_count(tx@.signers) < multisig.threshold ==> r == Err::<
            Instruction,
            MultisigError,
        >(MultisigError::NotEnoughSignatures),
        tx.owners_version != multisig.owners_version ==> r is Err,
{
    match check_execution(multisig_key, multisig, tx, remaining_accounts, now) {
        Ok(()) => Ok(tx.to_instruction(multisig_signer)),
        Err(e) => Err(e),
    }
}

/// Marks a proposal as executed at the time `now`, after the instruction
/// that `execute_transaction` handed out has been invoked with success.
///
/// The request is held to the same conditions as in `execute_transaction`,
/// in the same order. Where one fails the proposal is left as it is; in
/// particular the time of execution is written once, a proposal is never
/// marked without its quorum or under a replaced owner set, and a proposal
/// that has been marked is never pending again. On success nothing but the
/// time of execution changes.
pub fn record_execution(
    multisig_key: &Pubkey,
    multisig: &Multisig,
    tx: &mut Transaction,
    remaining_accounts: usize,
    now: i64,
) -> (r: Result<(), MultisigError>)
    ensures
        match r {
            Ok(()) => spec_record_execution(
                *multisig_key,
                multisig@,
                old(tx)@,
                remaining_accounts as nat,
                now,
            ) == Ok::<TransactionView, MultisigError>(final(tx)@),
            Err(e) => spec_record_execution(
                *multisig_key,
                multisig@,
                old(tx)@,
                remaining_accounts as nat,
                now,
            ) == Err::<TransactionView, MultisigError>(e) && final(tx)@ == old(tx)@,
        },
        r is Ok <==> old(tx)@.pending() && approval_count(old(tx)@.signers) >= multisig.threshold
            && remaining_accounts == old(tx)@.accounts.len() && old(tx)@.multisig == *multisig_key
            && old(tx)@.owners_version == multisig.owners_version && now != 0,
        r is Ok ==> final(tx)@.executed_at == now && now != 0 && !final(tx)@.pending(),
        !old(tx)@.pending() ==> final(tx)@ == old(tx)@ && r == Err::<(), MultisigError>(
            MultisigError::AlreadyExecuted,
        ),
        old(tx)@.pending() && approval_count(old(tx)@.signers) < multisig.threshold ==> final(tx)@
            == old(tx)@ && r == Err::<(), MultisigError>(MultisigError::NotEnoughSignatures),
        old(tx)@.owners_version != multisig.owners_version ==> r is Err && final(tx)@ == old(tx)@,
        final(tx)@.signers == old(tx)@.signers,
{
    match check_execution(multisig_key, multisig, tx, remaining_accounts, now) {
        Ok(()) => {
            tx.executed_at = now;
            Ok(())
        },
        Err(e) => Err(e),
    }
}

} // verus!
