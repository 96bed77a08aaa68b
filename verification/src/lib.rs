//! A threshold-authorization engine: a fixed set of owners jointly controls
//! the right to execute actions, and an action runs only after a quorum of
//! owners has approved it.

pub mod authority;
pub mod error;
pub mod execution;
pub mod instruction;
pub mod laws;
pub mod proposal;
pub mod pubkey;
pub mod registry;

pub use crate::authority::{derive_authority, is_multisig_signer};
pub use crate::error::MultisigError;
pub use crate::execution::{execute_transaction, record_execution};
pub use crate::instruction::{AccountMeta, Instruction, InstructionView};
pub use crate::proposal::{
    approve, create_transaction, Transaction, TransactionAccount, TransactionView, MAX_ACCOUNTS,
};
pub use crate::pubkey::Pubkey;
pub use crate::registry::{initialize, Multisig, MultisigView, MAX_OWNERS};
