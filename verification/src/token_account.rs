//! Access to spl_token's token-holding account records.

use solana_program::program_pack::Pack;
use vstd::prelude::*;

verus! {

/// spl_token's token-holding account record, opaque to this library: the
/// processor only carries it through to the transfer collaborator.
#[verifier::external_type_specification]
#[verifier::external_body]
pub struct ExSplTokenAccount(spl_token::state::Account);

/// Whether `spl_token::state::Account::unpack` accepts these bytes (exact
/// record length, well-formed fields, initialized state). A pure function of
/// the bytes alone.
pub uninterp spec fn spl_token_account_parses(data: Seq<u8>) -> bool;

/// Relies on `spl_token::state::Account::unpack`: parses a fixed-length token
/// account record and rejects an uninitialized one; its outcome depends only
/// on the input bytes.
#[verifier::external_body]
pub(crate) fn parse_spl_token_account(data: &[u8]) -> (r: Option<spl_token::state::Account>)
    ensures
        r is Some <==> spl_token_account_parses(data@),
{
    spl_token::state::Account::unpack(data).ok()
}

} // verus!
