//! Derivation of a plan's custody-authority address.

use crate::pubkey::Pubkey;
use vstd::prelude::*;

verus! {

/// The custody address that the ledger's canonical program-address derivation
/// yields for (program identity, plan account identity, nonce), or `None` when
/// that derivation fails because the result would be a valid externally-ownable
/// key. A pure function of its three arguments.
pub uninterp spec fn derived_authority(
    program_id: Seq<u8>,
    plan_account: Seq<u8>,
    nonce: u8,
) -> Option<Seq<u8>>;

/// Relies on solana_program's `Pubkey::create_program_address`: a deterministic
/// hash of the seeds (here the plan account's 32 bytes and the nonce byte) and
/// the program identity, which fails exactly when the derived bytes form a
/// curve point. With these fixed-shape seeds its seed-length failures cannot
/// occur, so the outcome is the named derivation.
#[verifier::external_body]
pub(crate) fn create_custody_address(program_id: &Pubkey, plan_account: &Pubkey, nonce: u8) -> (r:
    Option<Pubkey>)
    ensures
        match r {
            Some(k) => derived_authority(program_id@, plan_account@, nonce) == Some(k@),
            None => derived_authority(program_id@, plan_account@, nonce) is None,
        },
{
    let program = solana_program::pubkey::Pubkey::new_from_array(program_id.bytes);
    let seed = plan_account.bytes;
    match solana_program::pubkey::Pubkey::create_program_address(&[&seed[..], &[nonce]], &program) {
        Ok(k) => Some(Pubkey { bytes: k.to_bytes() }),
        Err(_) => None,
    }
}

} // verus!
