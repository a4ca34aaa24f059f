//! Fresh keypair generation: the one non-deterministic operation of the
//! library.

use vstd::prelude::*;

use crate::codec::{address_from_base58, address_to_base58, base58_decoded, base58_of, encode_base58};
use crate::crypto::{generate_keypair_bytes, keypair_pubkey_from_bytes, keypair_valid, pubkey_of_keypair};

verus! {

/// A generated keypair: the public key and the full keypair bytes, both as
/// base58 strings.
pub struct KeypairData {
    pub public_key: String,
    pub secret_key: String,
}

/// Generate a fresh random keypair. Whatever randomness produced, the secret
/// field is the base58 form of valid 64-byte keypair bytes, and the public
/// field is the base58 form of their public-key half, so the pair works with
/// the signing endpoint.
pub fn generate_keypair() -> (r: KeypairData)
    ensures
        exists|kb: Seq<u8>|
            {
                &&& keypair_valid(kb)
                &&& kb.len() == 64
                &&& r.secret_key@ == #[trigger] base58_of(kb)
                &&& base58_decoded(r.secret_key@) == Some(kb)
                &&& r.public_key@ == base58_of(pubkey_of_keypair(kb))
                &&& address_from_base58(r.public_key@) == Some(pubkey_of_keypair(kb))
            },
{
    let kb = generate_keypair_bytes();
    let pk = keypair_pubkey_from_bytes(kb.as_slice()).unwrap();
    let r = KeypairData {
        public_key: address_to_base58(pk.as_slice()),
        secret_key: encode_base58(kb.as_slice()),
    };
    proof {
        assert(keypair_valid(kb@) && kb@.len() == 64 && r.secret_key@ == base58_of(kb@)
            && base58_decoded(r.secret_key@) == Some(kb@)
            && r.public_key@ == base58_of(pubkey_of_keypair(kb@))
            && address_from_base58(r.public_key@) == Some(pubkey_of_keypair(kb@)));
    }
    r
}

} // verus!
