use vstd::prelude::*;

verus! {

/// Failure taxonomy for ledger interaction. Every operation of this library
/// reports exactly one of these kinds; internal callers can branch on the
/// kind, and only the HTTP boundary flattens it to text via [`Self::message`].
#[derive(Clone, Copy, Debug, PartialEq, Eq, Structural)]
pub enum SolanaError {
    /// Malformed address text handed in by a caller.
    PubkeyParsingError,
    /// Account data did not decode as the mint layout.
    MintParseError,
    /// The bridged worker task was lost before it produced a result.
    UnknownError,
    /// An RPC account read failed.
    AccountFetchError,
    /// Local instruction construction rejected its parameters.
    CreateInstructionError,
    /// The freshness-token (recent blockhash) fetch failed.
    GetBlockhashError,
    /// Broadcast or ledger-side confirmation of a transaction failed.
    SendTransactionError,
    /// The rent-exemption minimum-balance query failed.
    GetMinimumBalanceError,
    /// The associated token account exists but is owned by a foreign program.
    AtaOwnerError,
}

impl SolanaError {
    /// The human-readable message shown at the HTTP boundary.
    pub open spec fn spec_message(self) -> Seq<char> {
        match self {
            SolanaError::PubkeyParsingError => "Pubkey could not be parsed"@,
            SolanaError::MintParseError => "Mint account could not be parsed"@,
            SolanaError::UnknownError => "Unknown error occurred"@,
            SolanaError::AccountFetchError => "Error fetching account"@,
            SolanaError::CreateInstructionError => "Error creating instruction"@,
            SolanaError::GetBlockhashError => "Error getting latest blockhash"@,
            SolanaError::SendTransactionError => "Error sending transaction"@,
            SolanaError::GetMinimumBalanceError => "Error getting minimum balance"@,
            SolanaError::AtaOwnerError => "ATA is not owned by spl program"@,
        }
    }

    /// Flattens the error to its message text.
    pub fn message(&self) -> (r: String)
        ensures
            r@ == self.spec_message(),
    {
        match self {
            SolanaError::PubkeyParsingError => "Pubkey could not be parsed".to_string(),
            SolanaError::MintParseError => "Mint account could not be parsed".to_string(),
            SolanaError::UnknownError => "Unknown error occurred".to_string(),
            SolanaError::AccountFetchError => "Error fetching account".to_string(),
            SolanaError::CreateInstructionError => "Error creating instruction".to_string(),
            SolanaError::GetBlockhashError => "Error getting latest blockhash".to_string(),
            SolanaError::SendTransactionError => "Error sending transaction".to_string(),
            SolanaError::GetMinimumBalanceError => "Error getting minimum balance".to_string(),
            SolanaError::AtaOwnerError => "ATA is not owned by spl program".to_string(),
        }
    }
}

} // verus!
