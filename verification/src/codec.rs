use vstd::prelude::*;

use core::str::FromStr;
use solana_sdk::pubkey::Pubkey;
use solana_sdk::signer::Signer;

use crate::errors::SolanaError;

verus! {

/// The text produced by the canonical base58 encoding of a 32-byte key
/// (the `Display` impl of `solana_sdk::pubkey::Pubkey`). The encoding is a
/// pure function of the key; its value is not written out here, only named.
pub uninterp spec fn base58_text(key: Seq<u8>) -> Seq<char>;

/// The key recovered by `solana_sdk::pubkey::Pubkey::from_str`: `Some` exactly
/// on the canonical base58 encodings of 32-byte keys, `None` on every other
/// string. A pure function of the text.
pub uninterp spec fn base58_key(text: Seq<char>) -> Option<Seq<u8>>;

/// The 58-character base58 alphabet: digits and letters without `0`, `O`,
/// `I` and `l`.
pub open spec fn is_base58_char(c: char) -> bool {
    ||| '1' <= c && c <= '9'
    ||| 'A' <= c && c <= 'H'
    ||| 'J' <= c && c <= 'N'
    ||| 'P' <= c && c <= 'Z'
    ||| 'a' <= c && c <= 'k'
    ||| 'm' <= c && c <= 'z'
}

/// A validated 32-byte on-ledger address. Values are obtained by decoding
/// canonical base58 text or from an explicit 32-byte array; equality is
/// byte-exact.
#[derive(Clone, Copy, Debug)]
pub struct Address {
    bytes: [u8; 32],
}

impl View for Address {
    type V = Seq<u8>;

    closed spec fn view(&self) -> Seq<u8> {
        self.bytes@
    }
}

impl Address {
    /// Wraps an explicit 32-byte value.
    pub fn from_bytes(bytes: [u8; 32]) -> (r: Address)
        ensures
            r@ == bytes@,
    {
        Address { bytes }
    }

    /// The raw 32 bytes.
    pub fn to_bytes(&self) -> (r: [u8; 32])
        ensures
            r@ == self@,
    {
        self.bytes
    }

    /// Byte-exact equality.
    pub fn eq_address(&self, other: &Address) -> (r: bool)
        ensures
            r <==> self@ == other@,
    {
        let mut i: usize = 0;
        while i < 32
            invariant
                0 <= i <= 32,
                forall|j: int| 0 <= j < i ==> self@[j] == other@[j],
            decreases 32 - i,
        {
            if self.bytes[i] != other.bytes[i] {
                return false;
            }
            i = i + 1;
        }
        proof {
            assert(self@ =~= other@);
        }
        true
    }

    /// Encodes the address as canonical base58 text. The text decodes back to
    /// this same address.
    pub fn to_base58(&self) -> (r: String)
        ensures
            r@ == base58_text(self@),
            base58_key(r@) == Some(self@),
    {
        pubkey_to_text(self)
    }
}

/// Relies on `solana_sdk::pubkey::Pubkey::from_str`: base58-decodes the text
/// and accepts it exactly when it decodes to 32 bytes. Success and the decoded
/// bytes are a function of the text alone; text longer than 44 characters is
/// rejected up front, and the base58 decoder rejects any character outside its
/// alphabet.
#[verifier::external_body]
fn parse_pubkey(text: &str) -> (r: Option<Address>)
    ensures
        r is Some <==> base58_key(text@) is Some,
        r matches Some(a) ==> base58_key(text@) == Some(a@),
        text@.len() > 44 ==> r is None,
        (exists|i: int| 0 <= i < text@.len() && !is_base58_char(text@[i])) ==> r is None,
{
    match Pubkey::from_str(text) {
        Ok(p) => Some(Address { bytes: p.to_bytes() }),
        Err(_) => None,
    }
}

/// Relies on the `Display` impl of `solana_sdk::pubkey::Pubkey`: base58-encodes
/// the 32 bytes into at most 44 characters of the base58 alphabet, and
/// `Pubkey::from_str` decodes that text back to the same key.
#[verifier::external_body]
fn pubkey_to_text(a: &Address) -> (r: String)
    ensures
        r@ == base58_text(a@),
        base58_key(r@) == Some(a@),
        1 <= r@.len() <= 44,
        forall|i: int| 0 <= i < r@.len() ==> is_base58_char(r@[i]),
{
    Pubkey::new_from_array(a.bytes).to_string()
}

/// Address and keypair helpers shared by the whole service.
pub struct SolanaHelper;

impl SolanaHelper {
    /// Relies on `solana_sdk::signature::Keypair::new` (a freshly generated
    /// random signing identity), `Signer::pubkey` and
    /// `Keypair::to_base58_string`: returns the public address text and the
    /// secret key text. The key is random, so nothing is promised beyond the
    /// public text decoding as a valid address.
    #[verifier::external_body]
    pub fn get_keypair() -> (r: (String, String))
        ensures
            base58_key(r.0@) is Some,
    {
        let keypair = solana_sdk::signature::Keypair::new();
        (keypair.pubkey().to_string(), keypair.to_base58_string())
    }

    /// Decodes canonical base58 address text; any other string fails with
    /// `PubkeyParsingError`. Pure: no I/O is attempted.
    pub fn try_to_convert_str_to_pubkey(pubkey_str: &str) -> (r: Result<Address, SolanaError>)
        ensures
            r is Ok <==> base58_key(pubkey_str@) is Some,
            r matches Ok(a) ==> base58_key(pubkey_str@) == Some(a@),
            r matches Err(e) ==> e == SolanaError::PubkeyParsingError,
            pubkey_str@.len() > 44 ==> r == Err::<Address, SolanaError>(
                SolanaError::PubkeyParsingError,
            ),
            (exists|i: int|
                0 <= i < pubkey_str@.len() && !is_base58_char(pubkey_str@[i])) ==> r
                == Err::<Address, SolanaError>(SolanaError::PubkeyParsingError),
    {
        match parse_pubkey(pubkey_str) {
            Some(address) => Ok(address),
            None => Err(SolanaError::PubkeyParsingError),
        }
    }
}

/// Law: the codec round-trips. Encoding any address and decoding the text
/// yields that identical address.
pub fn address_round_trip(a: &Address) -> (r: Result<Address, SolanaError>)
    ensures
        r matches Ok(b) && b@ == a@,
{
    let text = a.to_base58();
    SolanaHelper::try_to_convert_str_to_pubkey(text.as_str())
}

} // verus!
