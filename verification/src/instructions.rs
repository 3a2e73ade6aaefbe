use vstd::prelude::*;

use solana_sdk::program_pack::Pack;
use solana_sdk::pubkey::Pubkey;

use crate::codec::Address;
use crate::resolver::ata_of;

verus! {

/// One account touched by an instruction: its address, whether it must sign,
/// and whether it may be written.
#[derive(Clone, Copy, Debug)]
pub struct AccountMeta {
    pub pubkey: Address,
    pub is_signer: bool,
    pub is_writable: bool,
}

/// An ordered unit of on-ledger work: the program asked to run, the accounts
/// it touches, and its payload bytes.
#[derive(Debug)]
pub struct Instruction {
    pub program_id: Address,
    pub accounts: Vec<AccountMeta>,
    pub data: Vec<u8>,
}

/// The system program's address: 32 zero bytes.
pub open spec fn system_program_id() -> Seq<u8> {
    Seq::new(32, |i: int| 0u8)
}

/// The token program's address (the 32 bytes whose base58 text is
/// `TokenkegQfeZyiNwAJbNbGKPFXCWuBvf9Ss623VQ5DA`).
pub open spec fn token_program_id() -> Seq<u8> {
    seq![
        6u8, 221u8, 246u8, 225u8, 215u8, 101u8, 161u8, 147u8,
        217u8, 203u8, 225u8, 70u8, 206u8, 235u8, 121u8, 172u8,
        28u8, 180u8, 133u8, 237u8, 95u8, 91u8, 55u8, 145u8,
        58u8, 140u8, 245u8, 133u8, 126u8, 255u8, 0u8, 169u8,
    ]
}

/// The associated-token-account program's address (base58 text
/// `ATokenGPvbdGVxr1b2hvZbsiqW5xWH25efTNsLJA8knL`).
pub open spec fn ata_program_id() -> Seq<u8> {
    seq![
        140u8, 151u8, 37u8, 143u8, 78u8, 36u8, 137u8, 241u8,
        187u8, 61u8, 16u8, 41u8, 20u8, 142u8, 13u8, 131u8,
        11u8, 90u8, 19u8, 153u8, 218u8, 255u8, 16u8, 132u8,
        4u8, 142u8, 123u8, 216u8, 219u8, 233u8, 248u8, 89u8,
    ]
}

/// The rent sysvar's address (base58 text
/// `SysvarRent111111111111111111111111111111111`).
pub open spec fn rent_sysvar_id() -> Seq<u8> {
    seq![
        6u8, 167u8, 213u8, 23u8, 25u8, 44u8, 92u8, 81u8,
        33u8, 140u8, 201u8, 76u8, 61u8, 74u8, 241u8, 127u8,
        88u8, 218u8, 238u8, 8u8, 155u8, 161u8, 253u8, 68u8,
        227u8, 219u8, 217u8, 138u8, 0u8, 0u8, 0u8, 0u8,
    ]
}

/// The little-endian byte image of a 32-bit value.
pub open spec fn u32_le_bytes(v: u32) -> Seq<u8> {
    seq![
        (v & 0xff) as u8,
        ((v >> 8) & 0xff) as u8,
        ((v >> 16) & 0xff) as u8,
        ((v >> 24) & 0xff) as u8,
    ]
}

/// The little-endian byte image of a 64-bit value.
pub open spec fn u64_le_bytes(v: u64) -> Seq<u8> {
    seq![
        (v & 0xff) as u8,
        ((v >> 8) & 0xff) as u8,
        ((v >> 16) & 0xff) as u8,
        ((v >> 24) & 0xff) as u8,
        ((v >> 32) & 0xff) as u8,
        ((v >> 40) & 0xff) as u8,
        ((v >> 48) & 0xff) as u8,
        ((v >> 56) & 0xff) as u8,
    ]
}

/// The system-program create-account instruction: funds `new_account` with
/// `lamports`, allocates `space` bytes, and assigns ownership to `owner`.
/// Payload: bincode of the create-account variant (index 0 as little-endian
/// u32), then lamports, space (both little-endian u64) and the owner bytes.
/// Both the funder and the new account must sign.
pub open spec fn is_create_account(
    ix: Instruction,
    funder: Seq<u8>,
    new_account: Seq<u8>,
    lamports: u64,
    space: u64,
    owner: Seq<u8>,
) -> bool {
    &&& ix.program_id@ == system_program_id()
    &&& ix.data@ == u32_le_bytes(0u32) + u64_le_bytes(lamports) + u64_le_bytes(space) + owner
    &&& ix.accounts@.len() == 2
    &&& ix.accounts@[0].pubkey@ == funder
    &&& ix.accounts@[0].is_signer
    &&& ix.accounts@[0].is_writable
    &&& ix.accounts@[1].pubkey@ == new_account
    &&& ix.accounts@[1].is_signer
    &&& ix.accounts@[1].is_writable
}

/// The token-program initialize-mint instruction for `mint` with the given
/// mint authority, freeze authority and decimals. Payload: tag 0, decimals,
/// the authority bytes, then 1 (freeze authority present) and its bytes.
/// Accounts: the mint (writable) and the rent sysvar (read-only).
pub open spec fn is_initialize_mint(
    ix: Instruction,
    mint: Seq<u8>,
    authority: Seq<u8>,
    freeze_authority: Seq<u8>,
    decimals: u8,
) -> bool {
    &&& ix.program_id@ == token_program_id()
    &&& ix.data@ == seq![0u8, decimals] + authority + seq![1u8] + freeze_authority
    &&& ix.accounts@.len() == 2
    &&& ix.accounts@[0].pubkey@ == mint
    &&& !ix.accounts@[0].is_signer
    &&& ix.accounts@[0].is_writable
    &&& ix.accounts@[1].pubkey@ == rent_sysvar_id()
    &&& !ix.accounts@[1].is_signer
    &&& !ix.accounts@[1].is_writable
}

/// The token-program mint-to instruction: the mint authority creates `amount`
/// new units in `destination`. Payload: tag 7, then the amount little-endian.
/// Accounts: the mint (writable), the destination (writable), the authority
/// (read-only, sole signer).
pub open spec fn is_mint_to(
    ix: Instruction,
    mint: Seq<u8>,
    destination: Seq<u8>,
    authority: Seq<u8>,
    amount: u64,
) -> bool {
    &&& ix.program_id@ == token_program_id()
    &&& ix.data@ == seq![7u8] + u64_le_bytes(amount)
    &&& ix.accounts@.len() == 3
    &&& ix.accounts@[0].pubkey@ == mint
    &&& !ix.accounts@[0].is_signer
    &&& ix.accounts@[0].is_writable
    &&& ix.accounts@[1].pubkey@ == destination
    &&& !ix.accounts@[1].is_signer
    &&& ix.accounts@[1].is_writable
    &&& ix.accounts@[2].pubkey@ == authority
    &&& ix.accounts@[2].is_signer
    &&& !ix.accounts@[2].is_writable
}

/// The create-associated-token-account instruction: `funder` pays for the
/// account that binds (`wallet`, `mint`) under the token program. Payload:
/// the single borsh byte 0 (the create variant). Accounts: funder (writable
/// signer), the derived address (writable), wallet, mint, system program and
/// token program (all read-only).
pub open spec fn is_create_ata(
    ix: Instruction,
    funder: Seq<u8>,
    wallet: Seq<u8>,
    mint: Seq<u8>,
) -> bool {
    &&& ix.program_id@ == ata_program_id()
    &&& ix.data@ == seq![0u8]
    &&& ix.accounts@.len() == 6
    &&& ix.accounts@[0].pubkey@ == funder
    &&& ix.accounts@[0].is_signer
    &&& ix.accounts@[0].is_writable
    &&& ix.accounts@[1].pubkey@ == ata_of(wallet, mint)
    &&& !ix.accounts@[1].is_signer
    &&& ix.accounts@[1].is_writable
    &&& ix.accounts@[2].pubkey@ == wallet
    &&& !ix.accounts@[2].is_signer
    &&& !ix.accounts@[2].is_writable
    &&& ix.accounts@[3].pubkey@ == mint
    &&& !ix.accounts@[3].is_signer
    &&& !ix.accounts@[3].is_writable
    &&& ix.accounts@[4].pubkey@ == system_program_id()
    &&& !ix.accounts@[4].is_signer
    &&& !ix.accounts@[4].is_writable
    &&& ix.accounts@[5].pubkey@ == token_program_id()
    &&& !ix.accounts@[5].is_signer
    &&& !ix.accounts@[5].is_writable
}

/// Relies on `spl_token::id()`: the token program's well-known address.
#[verifier::external_body]
pub fn spl_token_program() -> (r: Address)
    ensures
        r@ == token_program_id(),
{
    Address::from_bytes(spl_token::id().to_bytes())
}

/// Relies on `spl_token::state::Mint::LEN`: the packed size of a mint
/// account, 82 bytes.
#[verifier::external_body]
pub fn mint_account_len() -> (r: u64)
    ensures
        r == 82,
{
    spl_token::state::Mint::LEN as u64
}

/// Relies on `solana_sdk::system_instruction::create_account`: builds the
/// system-program instruction that funds, allocates and assigns a new
/// account; the payload is the bincode image of the create-account variant
/// and both the funder and the new account are marked writable signers.
#[verifier::external_body]
pub(crate) fn create_account_ix(
    funder: &Address,
    new_account: &Address,
    lamports: u64,
    space: u64,
    owner: &Address,
) -> (r: Instruction)
    ensures
        is_create_account(r, funder@, new_account@, lamports, space, owner@),
{
    let ix = solana_sdk::system_instruction::create_account(
        &Pubkey::new_from_array(funder.to_bytes()),
        &Pubkey::new_from_array(new_account.to_bytes()),
        lamports,
        space,
        &Pubkey::new_from_array(owner.to_bytes()),
    );
    let accounts = ix.accounts.into_iter().map(|m| AccountMeta {
        pubkey: Address::from_bytes(m.pubkey.to_bytes()), is_signer: m.is_signer, is_writable: m.is_writable,
    }).collect();
    Instruction { program_id: Address::from_bytes(ix.program_id.to_bytes()), accounts, data: ix.data }
}

/// Relies on `spl_token::instruction::initialize_mint`, called with the
/// canonical token program id (so its program-id check always passes): builds
/// the initialize-mint instruction with payload tag 0, the decimals, the mint
/// authority and a present freeze authority, over the mint and rent-sysvar
/// accounts.
#[verifier::external_body]
pub(crate) fn initialize_mint_ix(
    mint: &Address,
    authority: &Address,
    freeze_authority: &Address,
    decimals: u8,
) -> (r: Result<Instruction, ()>)
    ensures
        r is Ok,
        r matches Ok(ix) ==> is_initialize_mint(
            ix,
            mint@,
            authority@,
            freeze_authority@,
            decimals,
        ),
{
    let built = spl_token::instruction::initialize_mint(
        &spl_token::id(),
        &Pubkey::new_from_array(mint.to_bytes()),
        &Pubkey::new_from_array(authority.to_bytes()),
        Some(&Pubkey::new_from_array(freeze_authority.to_bytes())),
        decimals,
    ).map_err(|_| ())?;
    let accounts = built.accounts.into_iter().map(|m| AccountMeta {
        pubkey: Address::from_bytes(m.pubkey.to_bytes()), is_signer: m.is_signer, is_writable: m.is_writable,
    }).collect();
    Ok(Instruction { program_id: Address::from_bytes(built.program_id.to_bytes()), accounts, data: built.data })
}

/// Relies on `spl_token::instruction::mint_to`, called with the canonical
/// token program id (so its program-id check always passes) and no multisig
/// signers: builds the mint-to instruction with payload tag 7 and the amount,
/// over the mint, the destination, and the authority as sole signer.
#[verifier::external_body]
pub(crate) fn mint_to_ix(
    mint: &Address,
    destination: &Address,
    authority: &Address,
    amount: u64,
) -> (r: Result<Instruction, ()>)
    ensures
        r is Ok,
        r matches Ok(ix) ==> is_mint_to(ix, mint@, destination@, authority@, amount),
{
    let built = spl_token::instruction::mint_to(
        &spl_token::id(),
        &Pubkey::new_from_array(mint.to_bytes()),
        &Pubkey::new_from_array(destination.to_bytes()),
        &Pubkey::new_from_array(authority.to_bytes()),
        &[],
        amount,
    ).map_err(|_| ())?;
    let accounts = built.accounts.into_iter().map(|m| AccountMeta {
        pubkey: Address::from_bytes(m.pubkey.to_bytes()), is_signer: m.is_signer, is_writable: m.is_writable,
    }).collect();
    Ok(Instruction { program_id: Address::from_bytes(built.program_id.to_bytes()), accounts, data: built.data })
}

/// Relies on
/// `spl_associated_token_account::instruction::create_associated_token_account`,
/// called with the canonical token program id: builds the create instruction
/// whose payload is the single borsh byte 0 and whose second account is the
/// address derived from (`wallet`, `mint`).
#[verifier::external_body]
pub(crate) fn create_ata_ix(funder: &Address, wallet: &Address, mint: &Address) -> (r:
    Instruction)
    ensures
        is_create_ata(r, funder@, wallet@, mint@),
{
    let ix = spl_associated_token_account::instruction::create_associated_token_account(
        &Pubkey::new_from_array(funder.to_bytes()),
        &Pubkey::new_from_array(wallet.to_bytes()),
        &Pubkey::new_from_array(mint.to_bytes()),
        &spl_token::id(),
    );
    let accounts = ix.accounts.into_iter().map(|m| AccountMeta {
        pubkey: Address::from_bytes(m.pubkey.to_bytes()), is_signer: m.is_signer, is_writable: m.is_writable,
    }).collect();
    Instruction { program_id: Address::from_bytes(ix.program_id.to_bytes()), accounts, data: ix.data }
}

} // verus!
