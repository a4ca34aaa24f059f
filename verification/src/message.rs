//! Signing a message with a caller-supplied secret key, and verifying a
//! signature against a message and a claimed public key.
//!
//! Accepting a raw secret key over the wire is a documented capability of this
//! demo interface, not a practice to imitate: a deployment should gate the
//! signing endpoint behind an explicit opt-in.

use vstd::prelude::*;

use crate::codec::{
    address_from_base58, address_to_base58, base58_decoded, base58_of, base64_decoded, base64_of,
    decode_base58, decode_base64, encode_base64, parse_address,
};
use crate::crypto::{
    keypair_pubkey_from_bytes, keypair_valid, pubkey_of_keypair, sig_of, sig_verifies,
    sign_message_bytes, verify_signature_bytes,
};
use crate::error::ApiError;

verus! {

/// A signing request: the text to sign, and the keypair bytes in base58.
pub struct SignRequest {
    pub message: String,
    pub secret: String,
}

/// A successful signing response: the signature in base64, the public key the
/// secret derives in base58, and the message echoed back.
pub struct SignData {
    pub signature: String,
    pub public_key: String,
    pub message: String,
}

/// Whether a secret field holds base58 text whose bytes the SDK accepts as a
/// keypair.
pub open spec fn secret_key_ok(s: Seq<char>) -> bool {
    match base58_decoded(s) {
        Some(kb) => keypair_valid(kb),
        None => false,
    }
}

/// Sign the request's message with its secret key. Succeeds exactly when the
/// secret is well-formed; the response carries the base64 signature and the
/// base58 public key, and that signature verifies under that public key for
/// that message.
pub fn sign_message(req: SignRequest) -> (r: Result<SignData, ApiError>)
    ensures
        r is Ok <==> secret_key_ok(req.secret@),
        r is Err ==> r->Err_0 == ApiError::InvalidSecretKey,
        r matches Ok(d) ==> {
            let kb = base58_decoded(req.secret@)->Some_0;
            &&& d.signature@ == base64_of(sig_of(kb, req.message@))
            &&& base64_decoded(d.signature@) == Some(sig_of(kb, req.message@))
            &&& d.public_key@ == base58_of(pubkey_of_keypair(kb))
            &&& address_from_base58(d.public_key@) == Some(pubkey_of_keypair(kb))
            &&& d.message@ == req.message@
            &&& sig_verifies(sig_of(kb, req.message@), pubkey_of_keypair(kb), req.message@)
        },
{
    let kb = match decode_base58(req.secret.as_str()) {
        Some(v) => v,
        None => {
            return Err(ApiError::InvalidSecretKey);
        },
    };
    let pk = match keypair_pubkey_from_bytes(kb.as_slice()) {
        Some(p) => p,
        None => {
            return Err(ApiError::InvalidSecretKey);
        },
    };
    let sig = sign_message_bytes(kb.as_slice(), req.message.as_str());
    Ok(SignData {
        signature: encode_base64(sig.as_slice()),
        public_key: address_to_base58(pk.as_slice()),
        message: req.message,
    })
}

/// A verification request: the message, the signature in base64, and the
/// claimed public key in base58.
pub struct VerifyRequest {
    pub message: String,
    pub signature: String,
    pub pubkey: String,
}

/// A verification response: whether the signature matched, with the message
/// and public key echoed back.
pub struct VerifyData {
    pub valid: bool,
    pub message: String,
    pub pubkey: String,
}

/// Whether a signature field holds base64 text that decodes to 64 bytes.
pub open spec fn signature_field_ok(s: Seq<char>) -> bool {
    match base64_decoded(s) {
        Some(v) => v.len() == 64,
        None => false,
    }
}

/// Verify a signature against a message and a claimed public key. A mismatch
/// is an expected outcome and is reported as `valid: false` in a successful
/// response; only a malformed signature or public key is an error.
pub fn verify_message(req: VerifyRequest) -> (r: Result<VerifyData, ApiError>)
    ensures
        r is Ok <==> signature_field_ok(req.signature@) && address_from_base58(req.pubkey@) is Some,
        r is Err ==> r->Err_0 == (if !signature_field_ok(req.signature@) {
            ApiError::InvalidSignature
        } else {
            ApiError::InvalidPubkeyAddress
        }),
        r matches Ok(d) ==> {
            &&& d.valid == sig_verifies(
                base64_decoded(req.signature@)->Some_0,
                address_from_base58(req.pubkey@)->Some_0,
                req.message@,
            )
            &&& d.message@ == req.message@
            &&& d.pubkey@ == req.pubkey@
        },
{
    let sig = match decode_base64(req.signature.as_str()) {
        Some(v) => v,
        None => {
            return Err(ApiError::InvalidSignature);
        },
    };
    if sig.len() != 64 {
        return Err(ApiError::InvalidSignature);
    }
    let pk = match parse_address(req.pubkey.as_str()) {
        Some(v) => v,
        None => {
            return Err(ApiError::InvalidPubkeyAddress);
        },
    };
    let valid = verify_signature_bytes(sig.as_slice(), pk.as_slice(), req.message.as_str());
    Ok(VerifyData { valid, message: req.message, pubkey: req.pubkey })
}

} // verus!
