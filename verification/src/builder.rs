use vstd::prelude::*;

use crate::codec::Address;
use crate::errors::SolanaError;
use crate::instructions::{
    create_account_ix, create_ata_ix, initialize_mint_ix, is_create_account, is_create_ata,
    is_initialize_mint, is_mint_to, mint_account_len, mint_to_ix, spl_token_program,
    token_program_id, Instruction,
};
use crate::resolver::{ata_of, get_and_verify_ata, AtaFetch};

verus! {

/// New mints are created with this many base-10 decimals, and the service
/// identity holds both the mint and the freeze authority.
pub const MINT_DECIMALS: u8 = 6;

/// Everything that must be fixed before the freshness token is fetched and
/// the transaction is signed: the ordered instruction list, the fee payer,
/// and the set of required signers (by address).
#[derive(Debug)]
pub struct TransactionPlan {
    pub instructions: Vec<Instruction>,
    pub fee_payer: Address,
    pub signers: Vec<Address>,
}

/// What the rent-exemption minimum-balance query returned.
#[derive(Debug)]
pub enum RentFetch {
    Rent(u64),
    FetchFailed,
}

/// Plans the create-mint transaction. With the rent minimum in hand, the plan
/// holds exactly two instructions, in order: create-account (the payer funds
/// a mint-sized account owned by the token program) then initialize-mint
/// (six decimals, the payer as mint and freeze authority). The payer pays the
/// fee and both the payer and the new mint identity must sign. A failed rent
/// query fails with `GetMinimumBalanceError`.
pub fn build_create_mint(payer: &Address, mint: &Address, rent: &RentFetch) -> (r: Result<
    TransactionPlan,
    SolanaError,
>)
    ensures
        rent matches RentFetch::Rent(lamports) ==> (r matches Ok(plan) && {
            &&& plan.instructions@.len() == 2
            &&& is_create_account(
                plan.instructions@[0],
                payer@,
                mint@,
                *lamports,
                82u64,
                token_program_id(),
            )
            &&& is_initialize_mint(plan.instructions@[1], mint@, payer@, payer@, MINT_DECIMALS)
            &&& plan.fee_payer@ == payer@
            &&& plan.signers@.len() == 2
            &&& plan.signers@[0]@ == payer@
            &&& plan.signers@[1]@ == mint@
        }),
        rent is FetchFailed ==> r == Err::<TransactionPlan, SolanaError>(
            SolanaError::GetMinimumBalanceError,
        ),
{
    let lamports: u64 = match rent {
        RentFetch::Rent(lamports) => *lamports,
        RentFetch::FetchFailed => {
            return Err(SolanaError::GetMinimumBalanceError);
        },
    };
    let token_program = spl_token_program();
    let space = mint_account_len();
    let create_account = create_account_ix(payer, mint, lamports, space, &token_program);
    let initialize_mint = match initialize_mint_ix(mint, payer, payer, MINT_DECIMALS) {
        Ok(ix) => ix,
        Err(_) => {
            return Err(SolanaError::CreateInstructionError);
        },
    };
    let mut instructions: Vec<Instruction> = Vec::new();
    instructions.push(create_account);
    instructions.push(initialize_mint);
    let mut signers: Vec<Address> = Vec::new();
    signers.push(*payer);
    signers.push(*mint);
    Ok(TransactionPlan { instructions, fee_payer: *payer, signers })
}

/// Plans the mint-to transaction from what the ledger showed about the
/// receiver's associated token account. If the account is absent, the plan
/// prepends its creation; the mint-to instruction (payer as authority, the
/// derived address as destination) always comes last. The payer pays the fee
/// and signs alone. An account under a foreign program fails with
/// `AtaOwnerError` before any instruction is assembled, and a failed read
/// with `AccountFetchError`.
pub fn build_mint_to(
    payer: &Address,
    wallet: &Address,
    mint: &Address,
    fetch: &AtaFetch,
    amount: u64,
) -> (r: Result<TransactionPlan, SolanaError>)
    ensures
        (fetch matches AtaFetch::Exists { owner } && owner@ == token_program_id()) ==> (
        r matches Ok(plan) && {
            &&& plan.instructions@.len() == 1
            &&& is_mint_to(plan.instructions@[0], mint@, ata_of(wallet@, mint@), payer@, amount)
            &&& plan.fee_payer@ == payer@
            &&& plan.signers@.len() == 1
            &&& plan.signers@[0]@ == payer@
        }),
        fetch is Absent ==> (r matches Ok(plan) && {
            &&& plan.instructions@.len() == 2
            &&& is_create_ata(plan.instructions@[0], payer@, wallet@, mint@)
            &&& is_mint_to(plan.instructions@[1], mint@, ata_of(wallet@, mint@), payer@, amount)
            &&& plan.fee_payer@ == payer@
            &&& plan.signers@.len() == 1
            &&& plan.signers@[0]@ == payer@
        }),
        (fetch matches AtaFetch::Exists { owner } && owner@ != token_program_id()) ==> r
            == Err::<TransactionPlan, SolanaError>(SolanaError::AtaOwnerError),
        fetch is FetchFailed ==> r == Err::<TransactionPlan, SolanaError>(
            SolanaError::AccountFetchError,
        ),
{
    let ata = get_and_verify_ata(wallet, mint, fetch)?;
    let mut instructions: Vec<Instruction> = Vec::new();
    if !ata.is_created {
        instructions.push(create_ata_ix(payer, wallet, mint));
    }
    let mint_to = match mint_to_ix(mint, &ata.ata_pubkey, payer, amount) {
        Ok(ix) => ix,
        Err(_) => {
            return Err(SolanaError::CreateInstructionError);
        },
    };
    instructions.push(mint_to);
    let mut signers: Vec<Address> = Vec::new();
    signers.push(*payer);
    Ok(TransactionPlan { instructions, fee_payer: *payer, signers })
}

} // verus!
