//! The action that a proposal stands for, as it is handed to the host for
//! invocation.

use vstd::prelude::*;
use vstd::std_specs::convert::FromSpecImpl;
use crate::proposal::{Transaction, TransactionAccount, TransactionView};
use crate::pubkey::Pubkey;

verus! {

/// A resource of an instruction, with the rights it is invoked with.
#[derive(Clone, Copy, Debug, PartialEq, Eq)]
pub struct AccountMeta {
    pub pubkey: Pubkey,
    pub is_signer: bool,
    pub is_writable: bool,
}

/// A fully materialized action: the target, the resources with their rights
/// resolved, and the payload.
#[derive(Clone, Debug, PartialEq, Eq)]
pub struct Instruction {
    pub program_id: Pubkey,
    pub accounts: Vec<AccountMeta>,
    pub data: Vec<u8>,
}

/// An instruction as a mathematical value.
pub struct InstructionView {
    pub program_id: Pubkey,
    pub accounts: Seq<AccountMeta>,
    pub data: Seq<u8>,
}

impl View for Instruction {
    type V = InstructionView;

    open spec fn view(&self) -> InstructionView {
        InstructionView { program_id: self.program_id, accounts: self.accounts@, data: self.data@ }
    }
}

/// The rights with which one resource is invoked: the signing authority
/// signs and may be written to; every other resource keeps the rights the
/// proposal declares for it.
pub open spec fn resolve_account(acc: TransactionAccount, multisig_signer: Pubkey) -> AccountMeta {
    if acc.pubkey == multisig_signer {
        AccountMeta { pubkey: acc.pubkey, is_signer: true, is_writable: true }
    } else {
        AccountMeta { pubkey: acc.pubkey, is_signer: acc.is_signer, is_writable: acc.is_writable }
    }
}

/// The instruction that a proposal stands for when `multisig_signer` is the
/// signing authority: same target, same payload, and the resources in their
/// order, each with its rights resolved.
pub open spec fn spec_to_instruction(tx: TransactionView, multisig_signer: Pubkey) -> InstructionView {
    InstructionView {
        program_id: tx.program_id,
        accounts: tx.accounts.map_values(|acc: TransactionAccount| resolve_account(acc, multisig_signer)),
        data: tx.data,
    }
}

/// Calls `anchor_lang::prelude::AccountMeta::new` and hands its result back
/// field by field. Trusted, not proved: that the result names the given key,
/// carries the given signer flag and is writable.
#[verifier::external_body]
fn writable_meta(pubkey: Pubkey, is_signer: bool) -> (meta: AccountMeta)
    ensures
        meta == (AccountMeta { pubkey, is_signer, is_writable: true }),
{
    let key = anchor_lang::prelude::Pubkey::new_from_array(pubkey.bytes);
    let meta = anchor_lang::prelude::AccountMeta::new(key, is_signer);
    AccountMeta {
        pubkey: Pubkey { bytes: meta.pubkey.to_bytes() },
        is_signer: meta.is_signer,
        is_writable: meta.is_writable,
    }
}

impl Transaction {
    /// The instruction this proposal stands for, with `multisig_signer` as
    /// the signing authority.
    pub fn to_instruction(&self, multisig_signer: &Pubkey) -> (ix: Instruction)
        ensures
            ix@ == spec_to_instruction(self@, *multisig_signer),
            ix@.accounts.len() == self@.accounts.len(),
    {
        let n = self.accounts.len();
        let mut accounts: Vec<AccountMeta> = Vec::new();
        let mut i: usize = 0;
        while i < n
            invariant
                n == self.accounts@.len(),
                i <= n,
                accounts@.len() == i,
                forall|j: int|
                    0 <= j < i ==> accounts@[j] == resolve_account(
                        self.accounts@[j],
                        *multisig_signer,
                    ),
            decreases n - i,
        {
            let acc = &self.accounts[i];
            let meta = if acc.pubkey == *multisig_signer {
                writable_meta(acc.pubkey, true)
            } else {
                AccountMeta {
                    pubkey: acc.pubkey,
                    is_signer: acc.is_signer,
                    is_writable: acc.is_writable,
                }
            };
            accounts.push(meta);
            i += 1;
        }
        let data = self.data.clone();
        assert(data@ =~= self.data@);
        assert(accounts@ =~= spec_to_instruction(self@, *multisig_signer).accounts);
        Instruction { program_id: self.program_id, accounts, data }
    }
}

impl<'a> From<&'a Transaction> for Instruction {
    /// The instruction of a proposal in which the key of its own registry
    /// stands for the signing authority.
    fn from(tx: &'a Transaction) -> (ix: Instruction)
        ensures
            ix@ == spec_to_instruction(tx@, tx.multisig),
    {
        tx.to_instruction(&tx.multisig)
    }
}

/// Two instructions with the same view need not be the same value, so the
/// conversion is pinned down by the `ensures` of `from`, over views, and not
/// by `from_spec`.
impl<'a> FromSpecImpl<&'a Transaction> for Instruction {
    open spec fn obeys_from_spec() -> bool {
        false
    }

    open spec fn from_spec(tx: &'a Transaction) -> Instruction {
        arbitrary()
    }
}

impl From<Transaction> for Instruction {
    /// The instruction of a proposal in which the key of its own registry
    /// stands for the signing authority.
    fn from(tx: Transaction) -> (ix: Instruction)
        ensures
            ix@ == spec_to_instruction(tx@, tx.multisig),
    {
        tx.to_instruction(&tx.multisig)
    }
}

/// As for the conversion from a borrowed proposal: see the `ensures` of `from`.
impl FromSpecImpl<Transaction> for Instruction {
    open spec fn obeys_from_spec() -> bool {
        false
    }

    open spec fn from_spec(tx: Transaction) -> Instruction {
        arbitrary()
    }
}

} // verus!
