use vstd::prelude::*;

use solana_sdk::program_pack::Pack;

use crate::codec::{base58_key, base58_text, Address};
use crate::errors::SolanaError;
use crate::instructions::u64_le_bytes;

verus! {

/// The mint fields this service reads: total supply and decimals.
#[derive(Clone, Copy, Debug, PartialEq, Eq, Structural)]
pub struct MintAccount {
    pub supply: u64,
    pub decimals: u8,
}

/// Mint metadata returned to the caller.
#[derive(Debug)]
pub struct MintResponse {
    pub pubkey: String,
    pub supply: u64,
    pub decimals: u8,
}

/// The outcome of creating a new mint: its address text and the confirmed
/// transaction signature.
#[derive(Debug)]
pub struct CreateMintResponse {
    pub pubkey: String,
    pub signature: String,
}

/// The outcome of minting supply to a receiver: the confirmed transaction
/// signature.
#[derive(Debug)]
pub struct MintToResponse {
    pub signature: String,
}

/// What `spl_token::state::Mint::unpack` recovers from account bytes:
/// `Some((supply, decimals))` exactly on well-formed initialized 82-byte mint
/// images, `None` on everything else. A pure function of the bytes.
pub uninterp spec fn mint_layout(data: Seq<u8>) -> Option<(u64, u8)>;

/// What one ledger read of the mint account produced: its data bytes, or a
/// failed read.
#[derive(Debug)]
pub enum AccountFetch {
    Account(Vec<u8>),
    FetchFailed,
}

/// How the submit phase of a transaction ended: confirmed with a signature,
/// a failed freshness-token (recent blockhash) fetch, or a failed broadcast
/// or confirmation.
#[derive(Debug)]
pub enum SubmitOutcome {
    Confirmed(String),
    BlockhashFailed,
    SendFailed,
}

/// Relies on `spl_token::state::Mint::unpack`: parses the 82-byte packed mint
/// layout and rejects uninitialized or malformed images; success is a
/// function of the bytes alone. On success the supply is the little-endian
/// u64 at bytes 36..44 and the decimals the byte at 44.
#[verifier::external_body]
fn unpack_mint(data: &Vec<u8>) -> (r: Option<MintAccount>)
    ensures
        r is Some <==> mint_layout(data@) is Some,
        r matches Some(m) ==> mint_layout(data@) == Some((m.supply, m.decimals)),
        r is Some ==> data@.len() == 82,
        r matches Some(m) ==> u64_le_bytes(m.supply) == data@.subrange(36, 44) && m.decimals
            == data@[44],
{
    match spl_token::state::Mint::unpack(data.as_slice()) {
        Ok(mint) => Some(MintAccount { supply: mint.supply, decimals: mint.decimals }),
        Err(_) => None,
    }
}

/// Completes the fetch-mint operation from what the account read produced:
/// a failed read fails with `AccountFetchError`; bytes that do not parse as a
/// mint fail with `MintParseError`; otherwise the response echoes the queried
/// address text and carries the parsed supply and decimals.
pub fn fetch_mint_complete(mint_pubkey_str: &str, fetch: AccountFetch) -> (r: Result<
    MintResponse,
    SolanaError,
>)
    ensures
        fetch matches AccountFetch::Account(data) ==> mint_layout(data@) is Some ==> (
        r matches Ok(m) && m.pubkey@ == mint_pubkey_str@ && mint_layout(data@) == Some(
            (m.supply, m.decimals),
        )),
        (fetch matches AccountFetch::Account(data) && mint_layout(data@) is None) ==> r
            == Err::<MintResponse, SolanaError>(SolanaError::MintParseError),
        fetch is FetchFailed ==> r == Err::<MintResponse, SolanaError>(
            SolanaError::AccountFetchError,
        ),
{
    match fetch {
        AccountFetch::Account(data) => match unpack_mint(&data) {
            Some(mint) => Ok(
                MintResponse {
                    pubkey: mint_pubkey_str.to_string(),
                    supply: mint.supply,
                    decimals: mint.decimals,
                },
            ),
            None => Err(SolanaError::MintParseError),
        },
        AccountFetch::FetchFailed => Err(SolanaError::AccountFetchError),
    }
}

/// Law: fetching mint metadata is idempotent. With no intervening ledger
/// mutation — the same account bytes — two fetches of the same address
/// succeed or fail together, and on success return identical supply and
/// decimals.
pub fn fetch_mint_idempotent(mint_pubkey_str: &str, first: Vec<u8>, second: Vec<u8>) -> (r: (
    Result<MintResponse, SolanaError>,
    Result<MintResponse, SolanaError>,
))
    requires
        first@ == second@,
    ensures
        r.0 is Ok <==> r.1 is Ok,
        r.0 matches Ok(a) ==> r.1 matches Ok(b) ==> (a.supply == b.supply && a.decimals
            == b.decimals),
{
    let first_response = fetch_mint_complete(mint_pubkey_str, AccountFetch::Account(first));
    let second_response = fetch_mint_complete(mint_pubkey_str, AccountFetch::Account(second));
    (first_response, second_response)
}

/// Completes the create-mint operation: a confirmed submission yields the new
/// mint's address text (which decodes back to that address) and the
/// signature; a failed freshness-token fetch fails with `GetBlockhashError`
/// and a failed submission with `SendTransactionError`.
pub fn complete_create_mint(mint: &Address, submit: SubmitOutcome) -> (r: Result<
    CreateMintResponse,
    SolanaError,
>)
    ensures
        submit matches SubmitOutcome::Confirmed(signature) ==> (r matches Ok(resp)
            && resp.pubkey@ == base58_text(mint@) && base58_key(resp.pubkey@) == Some(mint@)
            && resp.signature@ == signature@),
        submit is BlockhashFailed ==> r == Err::<CreateMintResponse, SolanaError>(
            SolanaError::GetBlockhashError,
        ),
        submit is SendFailed ==> r == Err::<CreateMintResponse, SolanaError>(
            SolanaError::SendTransactionError,
        ),
{
    match submit {
        SubmitOutcome::Confirmed(signature) => Ok(
            CreateMintResponse { pubkey: mint.to_base58(), signature },
        ),
        SubmitOutcome::BlockhashFailed => Err(SolanaError::GetBlockhashError),
        SubmitOutcome::SendFailed => Err(SolanaError::SendTransactionError),
    }
}

/// Completes the mint-to operation: a confirmed submission yields the
/// signature; the two submit failures map to `GetBlockhashError` and
/// `SendTransactionError`.
pub fn complete_mint_to(submit: SubmitOutcome) -> (r: Result<MintToResponse, SolanaError>)
    ensures
        submit matches SubmitOutcome::Confirmed(signature) ==> (r matches Ok(resp)
            && resp.signature@ == signature@),
        submit is BlockhashFailed ==> r == Err::<MintToResponse, SolanaError>(
            SolanaError::GetBlockhashError,
        ),
        submit is SendFailed ==> r == Err::<MintToResponse, SolanaError>(
            SolanaError::SendTransactionError,
        ),
{
    match submit {
        SubmitOutcome::Confirmed(signature) => Ok(MintToResponse { signature }),
        SubmitOutcome::BlockhashFailed => Err(SolanaError::GetBlockhashError),
        SubmitOutcome::SendFailed => Err(SolanaError::SendTransactionError),
    }
}

} // verus!
