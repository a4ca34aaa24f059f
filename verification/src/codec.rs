//! Base58 and base64 text encodings, and the 32-byte address discipline built
//! on base58: every address-shaped input must decode to exactly 32 bytes
//! before it is used.

use vstd::prelude::*;

verus! {

/// The base58 encoding (Bitcoin alphabet) of a byte sequence.
pub uninterp spec fn base58_of(b: Seq<u8>) -> Seq<char>;

/// What base58 decoding returns on a string: the bytes, or `None` when some
/// character is outside the alphabet.
pub uninterp spec fn base58_decoded(s: Seq<char>) -> Option<Seq<u8>>;

/// The standard base64 encoding (with padding) of a byte sequence.
pub uninterp spec fn base64_of(b: Seq<u8>) -> Seq<char>;

/// What standard base64 decoding returns on a string: the bytes, or `None`
/// when the string is not well-formed base64.
pub uninterp spec fn base64_decoded(s: Seq<char>) -> Option<Seq<u8>>;

/// Relies on bs58::encode with the default (Bitcoin) alphabet: the result is a
/// function of the bytes alone, and bs58::decode maps it back to those bytes.
#[verifier::external_body]
pub fn encode_base58(b: &[u8]) -> (r: String)
    ensures
        r@ == base58_of(b@),
        base58_decoded(r@) == Some(b@),
{
    bs58::encode(b).into_string()
}

/// Relies on bs58::decode with the default (Bitcoin) alphabet: the result is a
/// function of the string alone; it fails exactly on malformed base58.
#[verifier::external_body]
pub fn decode_base58(s: &str) -> (r: Option<Vec<u8>>)
    ensures
        match r {
            Some(v) => base58_decoded(s@) == Some(v@),
            None => base58_decoded(s@) is None,
        },
{
    bs58::decode(s).into_vec().ok()
}

/// Relies on base64's STANDARD engine: the result is a function of the bytes
/// alone, and the engine's decode maps it back to those bytes.
#[verifier::external_body]
pub fn encode_base64(b: &[u8]) -> (r: String)
    ensures
        r@ == base64_of(b@),
        base64_decoded(r@) == Some(b@),
{
    base64::Engine::encode(&base64::engine::general_purpose::STANDARD, b)
}

/// Relies on base64's STANDARD engine: decoding is a function of the string
/// alone; it fails exactly on malformed base64.
#[verifier::external_body]
pub fn decode_base64(s: &str) -> (r: Option<Vec<u8>>)
    ensures
        match r {
            Some(v) => base64_decoded(s@) == Some(v@),
            None => base64_decoded(s@) is None,
        },
{
    base64::Engine::decode(&base64::engine::general_purpose::STANDARD, s).ok()
}

/// The bytes a string stands for as an address: its base58 decoding when that
/// decoding has exactly 32 bytes, and nothing otherwise.
pub open spec fn address_from_base58(s: Seq<char>) -> Option<Seq<u8>> {
    match base58_decoded(s) {
        Some(v) => if v.len() == 32 {
            Option::<Seq<u8>>::Some(v)
        } else {
            Option::<Seq<u8>>::None
        },
        None => Option::<Seq<u8>>::None,
    }
}

/// Parse an address string: `Some` exactly when the string is base58 and
/// decodes to 32 bytes.
pub fn parse_address(s: &str) -> (r: Option<Vec<u8>>)
    ensures
        match r {
            Some(v) => address_from_base58(s@) == Some(v@) && v@.len() == 32,
            None => address_from_base58(s@) is None,
        },
{
    match decode_base58(s) {
        Some(v) => if v.len() == 32 {
            Some(v)
        } else {
            None
        },
        None => None,
    }
}

/// Encode a 32-byte address as base58. Parsing the result yields the original
/// bytes: address encoding round-trips.
pub fn address_to_base58(b: &[u8]) -> (r: String)
    requires
        b@.len() == 32,
    ensures
        r@ == base58_of(b@),
        address_from_base58(r@) == Some(b@),
{
    encode_base58(b)
}

/// The little-endian byte sequence of a 64-bit integer.
pub open spec fn u64_le_bytes(n: u64) -> Seq<u8> {
    seq![
        (n & 0xff) as u8,
        ((n >> 8) & 0xff) as u8,
        ((n >> 16) & 0xff) as u8,
        ((n >> 24) & 0xff) as u8,
        ((n >> 32) & 0xff) as u8,
        ((n >> 40) & 0xff) as u8,
        ((n >> 48) & 0xff) as u8,
        ((n >> 56) & 0xff) as u8,
    ]
}

} // verus!
