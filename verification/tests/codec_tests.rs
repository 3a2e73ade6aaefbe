use mint_service::codec::{address_round_trip, Address, SolanaHelper};
use mint_service::errors::SolanaError;

use solana_sdk::pubkey::Pubkey;
use solana_sdk::signature::Keypair;
use solana_sdk::signer::Signer;
use std::str::FromStr;

const TOKEN_PROGRAM_TEXT: &str = "TokenkegQfeZyiNwAJbNbGKPFXCWuBvf9Ss623VQ5DA";

const TOKEN_PROGRAM_BYTES: [u8; 32] = [
    6, 221, 246, 225, 215, 101, 161, 147, 217, 203, 225, 70, 206, 235, 121, 172, 28, 180, 133,
    237, 95, 91, 55, 145, 58, 140, 245, 133, 126, 255, 0, 169,
];

#[test]
fn decode_known_address() {
    let address = SolanaHelper::try_to_convert_str_to_pubkey(TOKEN_PROGRAM_TEXT).unwrap();
    assert_eq!(address.to_bytes(), TOKEN_PROGRAM_BYTES);
}

#[test]
fn encode_known_address() {
    let address = Address::from_bytes(TOKEN_PROGRAM_BYTES);
    assert_eq!(address.to_base58(), TOKEN_PROGRAM_TEXT);
}

#[test]
fn round_trip_from_bytes() {
    let address = Address::from_bytes([7u8; 32]);
    let text = address.to_base58();
    let decoded = SolanaHelper::try_to_convert_str_to_pubkey(&text).unwrap();
    assert_eq!(decoded.to_bytes(), [7u8; 32]);
}

#[test]
fn round_trip_zero_bytes() {
    let address = Address::from_bytes([0u8; 32]);
    let text = address.to_base58();
    assert_eq!(text, "1".repeat(32));
    let decoded = SolanaHelper::try_to_convert_str_to_pubkey(&text).unwrap();
    assert_eq!(decoded.to_bytes(), [0u8; 32]);
}

#[test]
fn round_trip_law_function() {
    let address = Address::from_bytes([0xabu8; 32]);
    let back = address_round_trip(&address).unwrap();
    assert_eq!(back.to_bytes(), address.to_bytes());
}

#[test]
fn round_trip_matches_solana_display() {
    let address = Address::from_bytes([42u8; 32]);
    let expected = Pubkey::new_from_array([42u8; 32]).to_string();
    assert_eq!(address.to_base58(), expected);
}

#[test]
fn decode_rejects_bad_alphabet() {
    let result = SolanaHelper::try_to_convert_str_to_pubkey("invalidstring!");
    assert_eq!(result.unwrap_err(), SolanaError::PubkeyParsingError);
}

#[test]
fn decode_rejects_zero_and_uppercase_o() {
    assert_eq!(
        SolanaHelper::try_to_convert_str_to_pubkey(&"O0".repeat(20)).unwrap_err(),
        SolanaError::PubkeyParsingError
    );
}

#[test]
fn decode_rejects_overlong_text() {
    let text = "1".repeat(45);
    assert_eq!(
        SolanaHelper::try_to_convert_str_to_pubkey(&text).unwrap_err(),
        SolanaError::PubkeyParsingError
    );
}

#[test]
fn decode_rejects_empty_text() {
    assert_eq!(
        SolanaHelper::try_to_convert_str_to_pubkey("").unwrap_err(),
        SolanaError::PubkeyParsingError
    );
}

#[test]
fn decode_rejects_short_text() {
    assert_eq!(
        SolanaHelper::try_to_convert_str_to_pubkey("abc").unwrap_err(),
        SolanaError::PubkeyParsingError
    );
}

#[test]
fn address_equality_is_byte_exact() {
    let a = Address::from_bytes([1u8; 32]);
    let b = Address::from_bytes([1u8; 32]);
    let mut other_bytes = [1u8; 32];
    other_bytes[31] = 2;
    let c = Address::from_bytes(other_bytes);
    assert!(a.eq_address(&b));
    assert!(!a.eq_address(&c));
}

#[test]
fn get_keypair_yields_matching_pair() {
    let (public_text, secret_text) = SolanaHelper::get_keypair();
    let decoded = SolanaHelper::try_to_convert_str_to_pubkey(&public_text).unwrap();
    let keypair = Keypair::from_base58_string(&secret_text);
    assert_eq!(keypair.pubkey().to_bytes(), decoded.to_bytes());
}

#[test]
fn decode_agrees_with_solana_parser() {
    let keypair = Keypair::new();
    let text = keypair.pubkey().to_string();
    let decoded = SolanaHelper::try_to_convert_str_to_pubkey(&text).unwrap();
    assert_eq!(decoded.to_bytes(), Pubkey::from_str(&text).unwrap().to_bytes());
}

#[test]
fn error_messages_match_taxonomy() {
    assert_eq!(
        SolanaError::PubkeyParsingError.message(),
        "Pubkey could not be parsed"
    );
    assert_eq!(
        SolanaError::MintParseError.message(),
        "Mint account could not be parsed"
    );
    assert_eq!(SolanaError::UnknownError.message(), "Unknown error occurred");
    assert_eq!(
        SolanaError::AccountFetchError.message(),
        "Error fetching account"
    );
    assert_eq!(
        SolanaError::CreateInstructionError.message(),
        "Error creating instruction"
    );
    assert_eq!(
        SolanaError::GetBlockhashError.message(),
        "Error getting latest blockhash"
    );
    assert_eq!(
        SolanaError::SendTransactionError.message(),
        "Error sending transaction"
    );
    assert_eq!(
        SolanaError::GetMinimumBalanceError.message(),
        "Error getting minimum balance"
    );
    assert_eq!(
        SolanaError::AtaOwnerError.message(),
        "ATA is not owned by spl program"
    );
}
