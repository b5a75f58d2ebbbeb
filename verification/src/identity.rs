//! The identity resolver: from an address string to its 32-byte identifier.

use stellar_strkey::Strkey;
use vstd::prelude::*;
use crate::error::DispatchError;

verus! {

/// What an address string decodes to.
#[derive(Debug, Clone, Copy, PartialEq, Eq)]
pub enum DecodedKey {
    /// An account id, with the account's public key.
    PublicKeyEd25519([u8; 32]),
    /// A contract id, with the contract's hash.
    Contract([u8; 32]),
    /// A well-formed identifier of any other kind.
    Other,
    /// A text that the decoder refuses.
    Rejected,
}

/// What `stellar_strkey::Strkey::from_string` makes of the string `s`.
pub uninterp spec fn strkey_decoding(s: Seq<char>) -> DecodedKey;

/// Calls `stellar_strkey::Strkey::from_string`, which checks the base32
/// text, the version byte, the payload length and the checksum. The contract
/// only gives the result its name: the decoding is a function of the text
/// alone. Account and contract ids keep their 32 bytes; the seven other kinds
/// of identifier are not told apart, nor are the reasons for a failure.
#[verifier::external_body]
fn decode_strkey(s: &str) -> (key: DecodedKey)
    ensures
        key == strkey_decoding(s@),
{
    match Strkey::from_string(s) {
        Ok(Strkey::PublicKeyEd25519(k)) => DecodedKey::PublicKeyEd25519(k.0),
        Ok(Strkey::Contract(c)) => DecodedKey::Contract(c.0),
        Ok(Strkey::PreAuthTx(_)) => DecodedKey::Other,
        Ok(Strkey::HashX(_)) => DecodedKey::Other,
        Ok(Strkey::MuxedAccountEd25519(_)) => DecodedKey::Other,
        Ok(Strkey::SignedPayloadEd25519(_)) => DecodedKey::Other,
        Ok(Strkey::LiquidityPool(_)) => DecodedKey::Other,
        Ok(Strkey::ClaimableBalance(_)) => DecodedKey::Other,
        Ok(Strkey::MuxedContract(_)) => DecodedKey::Other,
        Err(_) => DecodedKey::Rejected,
    }
}

/// The identifier that a decoded key stands for: the 32 bytes of an account
/// or a contract, and a failure for everything else.
pub open spec fn key_hash_spec(key: DecodedKey) -> Result<[u8; 32], DispatchError> {
    match key {
        DecodedKey::PublicKeyEd25519(hash) => Ok(hash),
        DecodedKey::Contract(hash) => Ok(hash),
        DecodedKey::Other => Err(DispatchError::UnsupportedIdentifierFormat),
        DecodedKey::Rejected => Err(DispatchError::UnsupportedIdentifierFormat),
    }
}

/// The identifier of the address string `s`.
pub open spec fn resolved(s: Seq<char>) -> Result<[u8; 32], DispatchError> {
    key_hash_spec(strkey_decoding(s))
}

/// Picks the 32-byte identifier out of a decoded key. Only account ids and
/// contract ids have one.
pub fn key_hash(key: DecodedKey) -> (hash: Result<[u8; 32], DispatchError>)
    ensures
        hash == key_hash_spec(key),
{
    match key {
        DecodedKey::PublicKeyEd25519(hash) => Ok(hash),
        DecodedKey::Contract(hash) => Ok(hash),
        DecodedKey::Other => Err(DispatchError::UnsupportedIdentifierFormat),
        DecodedKey::Rejected => Err(DispatchError::UnsupportedIdentifierFormat),
    }
}

/// Resolves an address string to its 32-byte identifier. The string has to
/// be a contract id or an account id.
pub fn strkey_to_hash(strkey: &str) -> (hash: Result<[u8; 32], DispatchError>)
    ensures
        hash == resolved(strkey@),
{
    key_hash(decode_strkey(strkey))
}

} // verus!
