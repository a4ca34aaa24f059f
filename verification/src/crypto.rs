//! Ed25519 key handling, signing, and verification, through the blockchain
//! SDK. A keypair is carried as its 64 bytes: the 32-byte secret seed followed
//! by the matching 32-byte public key.

use vstd::prelude::*;

verus! {

/// Whether the SDK accepts these bytes as a keypair: exactly the 64-byte
/// arrays whose last 32 bytes are the public key derived from the first 32.
pub uninterp spec fn keypair_valid(kb: Seq<u8>) -> bool;

/// The Ed25519 signature of a message under a keypair. Signing is
/// deterministic, so this is a function of the keypair bytes and the message.
pub uninterp spec fn sig_of(kb: Seq<u8>, msg: Seq<char>) -> Seq<u8>;

/// Whether a 64-byte signature verifies for a public key and a message.
pub uninterp spec fn sig_verifies(sig: Seq<u8>, pk: Seq<u8>, msg: Seq<char>) -> bool;

/// The public-key half of a keypair's bytes.
pub open spec fn pubkey_of_keypair(kb: Seq<u8>) -> Seq<u8> {
    kb.subrange(32, 64)
}

/// Relies on solana_sdk's Keypair::new and Keypair::to_bytes: a fresh random
/// keypair serialized as secret seed then public key, accepted back by
/// Keypair::from_bytes.
#[verifier::external_body]
pub fn generate_keypair_bytes() -> (r: Vec<u8>)
    ensures
        r@.len() == 64,
        keypair_valid(r@),
{
    solana_sdk::signature::Keypair::new().to_bytes().to_vec()
}

/// Relies on solana_sdk's Keypair::from_bytes: it succeeds exactly on 64-byte
/// arrays whose last 32 bytes equal the public key derived from the first 32,
/// and Signer::pubkey then returns those last 32 bytes.
#[verifier::external_body]
pub fn keypair_pubkey_from_bytes(kb: &[u8]) -> (r: Option<Vec<u8>>)
    ensures
        r is Some <==> keypair_valid(kb@),
        r is Some ==> kb@.len() == 64,
        r matches Some(pk) ==> pk@ == pubkey_of_keypair(kb@),
{
    solana_sdk::signature::Keypair::from_bytes(kb)
        .ok()
        .map(|kp| solana_sdk::signature::Signer::pubkey(&kp).to_bytes().to_vec())
}

/// Relies on solana_sdk's Keypair::from_bytes and Signer::sign_message:
/// Ed25519 signing is deterministic in the keypair bytes and the message,
/// yields 64 bytes, and the signature verifies under the keypair's public key.
#[verifier::external_body]
pub fn sign_message_bytes(kb: &[u8], msg: &str) -> (r: Vec<u8>)
    requires
        keypair_valid(kb@),
    ensures
        r@ == sig_of(kb@, msg@),
        r@.len() == 64,
        sig_verifies(r@, pubkey_of_keypair(kb@), msg@),
{
    let kp = solana_sdk::signature::Keypair::from_bytes(kb).unwrap();
    solana_sdk::signature::Signer::sign_message(&kp, msg.as_bytes())
        .as_ref()
        .to_vec()
}

/// Relies on solana_sdk's Signature::verify (Ed25519 strict verification): the
/// outcome is a function of the signature bytes, the claimed public-key bytes,
/// and the message alone.
#[verifier::external_body]
pub fn verify_signature_bytes(sig: &[u8], pk: &[u8], msg: &str) -> (r: bool)
    requires
        sig@.len() == 64,
    ensures
        r == sig_verifies(sig@, pk@, msg@),
{
    match solana_sdk::signature::Signature::try_from(sig) {
        Ok(s) => s.verify(pk, msg.as_bytes()),
        Err(_) => false,
    }
}

} // verus!
