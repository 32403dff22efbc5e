//! Base58 and UTF-8 bridging.
//!
//! Base58 text is produced and consumed by the `bs58` crate; its exact
//! value is named by the uninterpreted functions below, and contracts
//! elsewhere speak of those names. UTF-8 decoding goes through
//! `String::from_utf8` and is specified against vstd's UTF-8 model.

use vstd::prelude::*;
use vstd::utf8::{decode_utf8, encode_utf8, valid_utf8};

verus! {

/// The Base58 text (Bitcoin alphabet) of a byte sequence.
pub uninterp spec fn base58_of(bytes: Seq<u8>) -> Seq<char>;

/// The bytes a Base58 text decodes to, or `None` when some character
/// is outside the alphabet.
pub uninterp spec fn base58_decoded(s: Seq<char>) -> Option<Seq<u8>>;

/// Base58 decode failure, mirroring the cases of `bs58::decode::Error`.
#[derive(Debug, Clone, Copy, PartialEq, Eq, Structural)]
pub enum Base58Error {
    /// The output buffer was too small to hold the decoded bytes.
    BufferTooSmall,
    /// A character outside the Base58 alphabet, with its byte index.
    InvalidCharacter {
        /// The unexpected character.
        character: char,
        /// The byte index the character was at.
        index: usize,
    },
    /// A multi-byte character, with its starting byte index.
    NonAsciiCharacter {
        /// The byte index the character started at.
        index: usize,
    },
    /// Any other failure the decoder reports.
    Other,
}

/// Encode bytes to Base58 text.
///
/// Relies on `bs58::encode(..).into_string()` with the default
/// (Bitcoin) alphabet: the text is a function of the input bytes alone.
#[verifier::external_body]
pub fn base58_encode(data: &[u8]) -> (r: String)
    ensures
        r@ == base58_of(data@),
{
    bs58::encode(data).into_string()
}

/// Decode Base58 text to bytes.
///
/// Relies on `bs58::decode(..).into_vec()` with the default (Bitcoin)
/// alphabet: the outcome is a function of the input text alone, and
/// decoding into a fresh vector fails exactly on input that is not
/// Base58. The error enum is carried over arm by arm.
#[verifier::external_body]
pub fn base58_decode(s: &str) -> (r: Result<Vec<u8>, Base58Error>)
    ensures
        r matches Ok(v) ==> base58_decoded(s@) == Some(v@),
        r is Ok <==> base58_decoded(s@) is Some,
{
    match bs58::decode(s).into_vec() {
        Ok(v) => Ok(v),
        Err(bs58::decode::Error::BufferTooSmall) => Err(Base58Error::BufferTooSmall),
        Err(bs58::decode::Error::InvalidCharacter { character, index }) => Err(
            Base58Error::InvalidCharacter { character, index },
        ),
        Err(bs58::decode::Error::NonAsciiCharacter { index }) => Err(
            Base58Error::NonAsciiCharacter { index },
        ),
        Err(_) => Err(Base58Error::Other),
    }
}

/// A valid Solana public key in text form: 32 to 44 bytes of Base58
/// that decode to exactly 32 bytes.
pub open spec fn spec_valid_pubkey(s: Seq<char>) -> bool {
    &&& 32 <= encode_utf8(s).len() <= 44
    &&& match base58_decoded(s) {
        Some(d) => d.len() == 32,
        None => false,
    }
}

/// Check whether a string is a valid Solana public key.
pub fn is_valid_pubkey(address: &str) -> (r: bool)
    ensures
        r == spec_valid_pubkey(address@),
{
    let byte_len: usize = address.as_bytes().len();
    if byte_len < 32 || byte_len > 44 {
        return false;
    }
    match base58_decode(address) {
        Ok(decoded) => decoded.len() == 32,
        Err(_) => false,
    }
}

/// Turn bytes into a string when they are valid UTF-8.
///
/// Relies on `String::from_utf8`: it returns the decoded string exactly
/// when the bytes are valid UTF-8.
#[verifier::external_body]
pub(crate) fn utf8_to_string(bytes: Vec<u8>) -> (r: Option<String>)
    ensures
        r is Some <==> valid_utf8(bytes@),
        r matches Some(s) ==> s@ == decode_utf8(bytes@),
{
    String::from_utf8(bytes).ok()
}

} // verus!
