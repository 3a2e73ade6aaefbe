use vstd::prelude::*;

use solana_sdk::pubkey::Pubkey;

use crate::codec::Address;
use crate::errors::SolanaError;
use crate::instructions::{spl_token_program, token_program_id};

verus! {

/// The address derived by
/// `spl_associated_token_account::get_associated_token_address` for a
/// (wallet, mint) pair: a pure function of the pair, with no randomness and
/// no I/O. Its value is not written out here, only named.
pub uninterp spec fn ata_of(wallet: Seq<u8>, mint: Seq<u8>) -> Seq<u8>;

/// What one ledger read of the derived associated-token-account address
/// showed: the account exists under some owning program, it does not exist,
/// or the read itself failed.
#[derive(Debug)]
pub enum AtaFetch {
    Exists { owner: Address },
    Absent,
    FetchFailed,
}

/// The resolver's answer: the derived address, and whether the account
/// already exists (owned by the token program).
#[derive(Debug)]
pub struct VerifyAndGetAtaResponse {
    pub ata_pubkey: Address,
    pub is_created: bool,
}

/// Relies on `spl_associated_token_account::get_associated_token_address`:
/// derives the associated-token-account address for the pair under the
/// canonical token program. Deterministic in its arguments; it aborts only in
/// the statistically improbable case that no viable derivation bump exists.
#[verifier::external_body]
fn derive_ata_address(wallet: &Address, mint: &Address) -> (r: Address)
    ensures
        r@ == ata_of(wallet@, mint@),
{
    let derived = spl_associated_token_account::get_associated_token_address(
        &Pubkey::new_from_array(wallet.to_bytes()),
        &Pubkey::new_from_array(mint.to_bytes()),
    );
    Address::from_bytes(derived.to_bytes())
}

/// Derives the associated-token-account address for (`wallet`, `mint`).
/// Pure: the result depends on the pair alone.
pub fn derive_ata(wallet: &Address, mint: &Address) -> (r: Address)
    ensures
        r@ == ata_of(wallet@, mint@),
{
    derive_ata_address(wallet, mint)
}

/// Law: resolution is a pure function of (wallet, mint). Deriving the
/// associated-token-account address twice for identical inputs yields the
/// same address both times.
pub fn ata_resolution_deterministic(wallet: &Address, mint: &Address) -> (r: (Address, Address))
    ensures
        r.0@ == r.1@,
{
    (derive_ata(wallet, mint), derive_ata(wallet, mint))
}

/// Classifies one read of the derived address: absent accounts are reported
/// as not yet created; accounts owned by the token program as created; an
/// account under any other program fails with `AtaOwnerError`, and a failed
/// read with `AccountFetchError`.
pub fn get_and_verify_ata(wallet: &Address, mint: &Address, fetch: &AtaFetch) -> (r: Result<
    VerifyAndGetAtaResponse,
    SolanaError,
>)
    ensures
        (fetch matches AtaFetch::Exists { owner } && owner@ == token_program_id()) ==> (
        r matches Ok(a) && a.ata_pubkey@ == ata_of(wallet@, mint@) && a.is_created),
        (fetch matches AtaFetch::Exists { owner } && owner@ != token_program_id()) ==> r
            == Err::<VerifyAndGetAtaResponse, SolanaError>(SolanaError::AtaOwnerError),
        fetch is Absent ==> (r matches Ok(a) && a.ata_pubkey@ == ata_of(wallet@, mint@)
            && !a.is_created),
        fetch is FetchFailed ==> r == Err::<VerifyAndGetAtaResponse, SolanaError>(
            SolanaError::AccountFetchError,
        ),
{
    let ata_pubkey = derive_ata(wallet, mint);
    match fetch {
        AtaFetch::Exists { owner } => {
            let token_program = spl_token_program();
            if owner.eq_address(&token_program) {
                Ok(VerifyAndGetAtaResponse { ata_pubkey, is_created: true })
            } else {
                Err(SolanaError::AtaOwnerError)
            }
        },
        AtaFetch::Absent => Ok(VerifyAndGetAtaResponse { ata_pubkey, is_created: false }),
        AtaFetch::FetchFailed => Err(SolanaError::AccountFetchError),
    }
}

} // verus!
