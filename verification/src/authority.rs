//! The signing authority of a registry: an address derived from the
//! registry's key and its seed, for which only the hosting program can sign.

use vstd::prelude::*;
use crate::pubkey::{lemma_view_injective, Pubkey};
use crate::registry::Multisig;

verus! {

/// The address that the host derives for `program_id` from the two seeds
/// `seed` and the single byte `bump`, or `None` where these seeds yield no
/// address. The derivation is the host's; nothing is stated of it here but
/// that the same arguments always give the same answer.
pub uninterp spec fn program_address(seed: Seq<u8>, bump: u8, program_id: Seq<u8>) -> Option<Seq<u8>>;

/// Calls `anchor_lang::prelude::Pubkey::create_program_address` with the two
/// seeds `seed` and `[bump]`. Trusted, not proved: that its answer is a
/// function of the three arguments alone, here named `program_address`, with
/// every failure of the derivation given as `None`.
#[verifier::external_body]
fn create_program_address(seed: &Pubkey, bump: u8, program_id: &Pubkey) -> (r: Option<Pubkey>)
    ensures
        match r {
            Some(address) => program_address(seed@, bump, program_id@) == Some(address@),
            None => program_address(seed@, bump, program_id@) is None,
        },
{
    let program = anchor_lang::prelude::Pubkey::new_from_array(program_id.bytes);
    let seeds: [&[u8]; 2] = [&seed.bytes[..], &[bump]];
    match anchor_lang::prelude::Pubkey::create_program_address(&seeds, &program) {
        Ok(address) => Some(Pubkey { bytes: address.to_bytes() }),
        Err(_) => None,
    }
}

/// The signing authority of the registry stored under `multisig_key`, as the
/// program `program_id` derives it: from the registry's key as seed and the
/// registry's `nonce` as bump. `None` where the registry's seed yields no
/// address: such a registry has no authority.
pub fn derive_authority(multisig_key: &Pubkey, multisig: &Multisig, program_id: &Pubkey) -> (r:
    Option<Pubkey>)
    ensures
        match r {
            Some(authority) => program_address(multisig_key@, multisig.nonce, program_id@) == Some(
                authority@,
            ),
            None => program_address(multisig_key@, multisig.nonce, program_id@) is None,
        },
{
    create_program_address(multisig_key, multisig.nonce, program_id)
}

/// Whether `candidate` is the signing authority of the registry stored under
/// `multisig_key`. Anyone can ask: the derivation needs no secret.
pub fn is_multisig_signer(
    multisig_key: &Pubkey,
    multisig: &Multisig,
    program_id: &Pubkey,
    candidate: &Pubkey,
) -> (r: bool)
    ensures
        r == (program_address(multisig_key@, multisig.nonce, program_id@) == Some(candidate@)),
{
    match derive_authority(multisig_key, multisig, program_id) {
        Some(authority) => {
            proof {
                if authority@ == candidate@ {
                    lemma_view_injective(authority, *candidate);
                }
            }
            authority == *candidate
        },
        None => false,
    }
}

} // verus!
