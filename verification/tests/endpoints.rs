use solana_service::codec::{address_to_base58, decode_base58, decode_base64, encode_base58, encode_base64};
use solana_service::error::ApiError;
use solana_service::keypair::generate_keypair;
use solana_service::message::{sign_message, verify_message, SignRequest, VerifyRequest};
use solana_service::send::{send_sol, send_token, SolTransferRequest, TokenSendRequest};
use solana_service::token::{create_token, mint_token, TokenCreateRequest, TokenMintRequest};

fn addr(fill: u8) -> String {
    address_to_base58(&[fill; 32])
}

#[test]
fn generated_keypair_is_coherent() {
    let kp = generate_keypair();
    let kb = decode_base58(&kp.secret_key).expect("secret key must be base58");
    assert_eq!(kb.len(), 64);
    assert_eq!(kp.public_key, address_to_base58(&kb[32..64]));
}

#[test]
fn sign_then_verify_is_valid() {
    let kp = generate_keypair();
    let signed = match sign_message(SignRequest {
        message: "hello solana".to_string(),
        secret: kp.secret_key,
    }) {
        Ok(d) => d,
        Err(e) => panic!("{}", e.message()),
    };
    assert_eq!(signed.public_key, kp.public_key);
    assert_eq!(signed.message, "hello solana");
    let verified = match verify_message(VerifyRequest {
        message: "hello solana".to_string(),
        signature: signed.signature,
        pubkey: signed.public_key,
    }) {
        Ok(d) => d,
        Err(e) => panic!("{}", e.message()),
    };
    assert!(verified.valid);
    assert_eq!(verified.message, "hello solana");
}

#[test]
fn flipping_any_signature_byte_invalidates() {
    let kp = generate_keypair();
    let signed = sign_message(SignRequest {
        message: "tamper check".to_string(),
        secret: kp.secret_key,
    })
    .map_err(|e| e.message())
    .unwrap();
    let sig = decode_base64(&signed.signature).expect("signature must be base64");
    assert_eq!(sig.len(), 64);
    for i in 0..64 {
        let mut tampered = sig.clone();
        tampered[i] ^= 0x01;
        let r = verify_message(VerifyRequest {
            message: "tamper check".to_string(),
            signature: encode_base64(&tampered),
            pubkey: kp.public_key.clone(),
        });
        // A mismatch is a successful response with valid: false, not an error.
        match r {
            Ok(d) => assert!(!d.valid, "flipped byte {} still verified", i),
            Err(e) => panic!("flip at {} was an error: {}", i, e.message()),
        }
    }
}

#[test]
fn verifying_a_different_message_is_invalid() {
    let kp = generate_keypair();
    let signed = sign_message(SignRequest {
        message: "first".to_string(),
        secret: kp.secret_key,
    })
    .map_err(|e| e.message())
    .unwrap();
    let r = verify_message(VerifyRequest {
        message: "second".to_string(),
        signature: signed.signature,
        pubkey: kp.public_key,
    })
    .map_err(|e| e.message())
    .unwrap();
    assert!(!r.valid);
}

#[test]
fn sign_rejects_malformed_secret() {
    let r = sign_message(SignRequest {
        message: "m".to_string(),
        secret: "0OIl not base58".to_string(),
    });
    assert_eq!(r.err(), Some(ApiError::InvalidSecretKey));
}

#[test]
fn sign_rejects_secret_of_wrong_length() {
    let r = sign_message(SignRequest {
        message: "m".to_string(),
        secret: encode_base58(&[9u8; 10]),
    });
    assert_eq!(r.err(), Some(ApiError::InvalidSecretKey));
}

#[test]
fn sign_rejects_mismatched_keypair_halves() {
    // 64 bytes whose public half does not match the secret half.
    let kp = generate_keypair();
    let mut kb = decode_base58(&kp.secret_key).unwrap();
    kb[40] ^= 0xff;
    let r = sign_message(SignRequest {
        message: "m".to_string(),
        secret: encode_base58(&kb),
    });
    assert_eq!(r.err(), Some(ApiError::InvalidSecretKey));
}

#[test]
fn verify_rejects_malformed_signature_and_pubkey() {
    let r = verify_message(VerifyRequest {
        message: "m".to_string(),
        signature: "not base64 ???".to_string(),
        pubkey: addr(1),
    });
    assert_eq!(r.err(), Some(ApiError::InvalidSignature));

    // Well-formed base64, but not 64 bytes.
    let r = verify_message(VerifyRequest {
        message: "m".to_string(),
        signature: encode_base64(&[1u8; 63]),
        pubkey: addr(1),
    });
    assert_eq!(r.err(), Some(ApiError::InvalidSignature));

    let r = verify_message(VerifyRequest {
        message: "m".to_string(),
        signature: encode_base64(&[1u8; 64]),
        pubkey: "IOl0".to_string(),
    });
    assert_eq!(r.err(), Some(ApiError::InvalidPubkeyAddress));
}

#[test]
fn send_sol_builds_system_transfer() {
    let a = addr(1);
    let b = addr(2);
    let d = send_sol(SolTransferRequest {
        from: a.clone(),
        to: b.clone(),
        lamports: 1000,
    })
    .map_err(|e| e.message())
    .unwrap();
    assert_eq!(d.program_id, "11111111111111111111111111111111");
    assert_eq!(d.accounts, vec![a, b]);
    // Fixed-width little-endian bincode of the transfer variant (index 2).
    assert_eq!(d.instruction_data, "AgAAAOgDAAAAAAAA");
}

#[test]
fn send_sol_rejects_bad_addresses() {
    let r = send_sol(SolTransferRequest {
        from: "bad0".to_string(),
        to: addr(2),
        lamports: 1,
    });
    assert_eq!(r.err(), Some(ApiError::InvalidFromAddress));
    let r = send_sol(SolTransferRequest {
        from: addr(1),
        to: "bad0".to_string(),
        lamports: 1,
    });
    assert_eq!(r.err(), Some(ApiError::InvalidToAddress));
}

#[test]
fn send_token_builds_spl_transfer() {
    let owner = addr(3);
    let dest = addr(4);
    let d = send_token(TokenSendRequest {
        destination: dest.clone(),
        mint: addr(5),
        owner: owner.clone(),
        amount: 1000,
    })
    .map_err(|e| e.message())
    .unwrap();
    assert_eq!(d.program_id, "TokenkegQfeZyiNwAJbNbGKPFXCWuBvf9Ss623VQ5DA");
    assert_eq!(d.accounts.len(), 3);
    assert_eq!(d.accounts[0].pubkey, owner);
    assert!(!d.accounts[0].is_signer);
    assert_eq!(d.accounts[1].pubkey, dest);
    assert!(!d.accounts[1].is_signer);
    assert_eq!(d.accounts[2].pubkey, owner);
    assert!(d.accounts[2].is_signer);
    assert_eq!(d.instruction_data, "A+gDAAAAAAAA");
}

#[test]
fn send_token_ignores_the_mint_field() {
    // The observed interface never validates or uses the mint field.
    let r = send_token(TokenSendRequest {
        destination: addr(4),
        mint: "definitely not base58 0OIl".to_string(),
        owner: addr(3),
        amount: 1,
    });
    assert!(r.is_ok());
}

#[test]
fn send_token_rejects_bad_addresses() {
    let r = send_token(TokenSendRequest {
        destination: addr(4),
        mint: addr(5),
        owner: "x0".to_string(),
        amount: 1,
    });
    assert_eq!(r.err(), Some(ApiError::InvalidOwnerAddress));
    let r = send_token(TokenSendRequest {
        destination: "x0".to_string(),
        mint: addr(5),
        owner: addr(3),
        amount: 1,
    });
    assert_eq!(r.err(), Some(ApiError::InvalidDestinationAddress));
}

#[test]
fn create_token_decimals_bounds() {
    let ok_low = create_token(TokenCreateRequest {
        mint_authority: addr(1),
        mint: addr(2),
        decimals: 0,
    });
    assert!(ok_low.is_ok());
    let ok_high = create_token(TokenCreateRequest {
        mint_authority: addr(1),
        mint: addr(2),
        decimals: 255,
    });
    assert!(ok_high.is_ok());
    let too_low = create_token(TokenCreateRequest {
        mint_authority: addr(1),
        mint: addr(2),
        decimals: -1,
    });
    assert_eq!(too_low.err(), Some(ApiError::InvalidDecimals));
    let too_high = create_token(TokenCreateRequest {
        mint_authority: addr(1),
        mint: addr(2),
        decimals: 256,
    });
    assert_eq!(too_high.err(), Some(ApiError::InvalidDecimals));
    assert_eq!(
        ApiError::InvalidDecimals.message(),
        "Invalid decimals: must be between 0 and 255"
    );
}

#[test]
fn create_token_rejects_invalid_mint_address() {
    let r = create_token(TokenCreateRequest {
        mint_authority: addr(1),
        mint: "IOl0".to_string(),
        decimals: 6,
    });
    let e = r.err().expect("must fail");
    assert_eq!(e, ApiError::InvalidMintAddress);
    assert_eq!(e.message(), "Invalid mint address");
    let r = create_token(TokenCreateRequest {
        mint_authority: "IOl0".to_string(),
        mint: addr(2),
        decimals: 6,
    });
    let e = r.err().expect("must fail");
    assert_eq!(e, ApiError::InvalidMintAuthorityAddress);
    assert_eq!(e.message(), "Invalid mintAuthority address");
}

#[test]
fn create_token_builds_initialize_mint() {
    let authority_bytes = [1u8; 32];
    let mint = addr(2);
    let d = create_token(TokenCreateRequest {
        mint_authority: address_to_base58(&authority_bytes),
        mint: mint.clone(),
        decimals: 9,
    })
    .map_err(|e| e.message())
    .unwrap();
    assert_eq!(d.program_id, "TokenkegQfeZyiNwAJbNbGKPFXCWuBvf9Ss623VQ5DA");
    assert_eq!(d.accounts.len(), 2);
    assert_eq!(d.accounts[0].pubkey, mint);
    assert!(!d.accounts[0].is_signer);
    assert!(d.accounts[0].is_writable);
    assert_eq!(
        d.accounts[1].pubkey,
        "SysvarRent111111111111111111111111111111111"
    );
    assert!(!d.accounts[1].is_signer);
    assert!(!d.accounts[1].is_writable);
    // Tag 0, decimals, the 32-byte authority, then 0 for no freeze authority.
    let mut expected = vec![0u8, 9];
    expected.extend_from_slice(&authority_bytes);
    expected.push(0);
    assert_eq!(d.instruction_data, encode_base64(&expected));
}

#[test]
fn mint_token_builds_mint_to() {
    let mint = addr(6);
    let dest = addr(7);
    let auth = addr(8);
    let d = mint_token(TokenMintRequest {
        mint: mint.clone(),
        destination: dest.clone(),
        authority: auth.clone(),
        amount: 1000,
    })
    .map_err(|e| e.message())
    .unwrap();
    assert_eq!(d.program_id, "TokenkegQfeZyiNwAJbNbGKPFXCWuBvf9Ss623VQ5DA");
    assert_eq!(d.accounts.len(), 3);
    assert_eq!(d.accounts[0].pubkey, mint);
    assert!(!d.accounts[0].is_signer);
    assert!(d.accounts[0].is_writable);
    assert_eq!(d.accounts[1].pubkey, dest);
    assert!(!d.accounts[1].is_signer);
    assert!(d.accounts[1].is_writable);
    assert_eq!(d.accounts[2].pubkey, auth);
    assert!(d.accounts[2].is_signer);
    assert!(!d.accounts[2].is_writable);
    assert_eq!(d.instruction_data, "B+gDAAAAAAAA");
}

#[test]
fn mint_token_rejects_each_bad_address() {
    let r = mint_token(TokenMintRequest {
        mint: "0".to_string(),
        destination: addr(7),
        authority: addr(8),
        amount: 1,
    });
    assert_eq!(r.err(), Some(ApiError::InvalidMintAddress));
    let r = mint_token(TokenMintRequest {
        mint: addr(6),
        destination: "0".to_string(),
        authority: addr(8),
        amount: 1,
    });
    assert_eq!(r.err(), Some(ApiError::InvalidDestinationAddress));
    let r = mint_token(TokenMintRequest {
        mint: addr(6),
        destination: addr(7),
        authority: "0".to_string(),
        amount: 1,
    });
    assert_eq!(r.err(), Some(ApiError::InvalidAuthorityAddress));
}

#[test]
fn distinct_requests_get_distinct_echoes() {
    // Requests are independent: each response carries its own marker.
    let kp = generate_keypair();
    let markers = ["alpha", "beta", "gamma", "delta"];
    let mut signed = Vec::new();
    for m in markers {
        signed.push(
            sign_message(SignRequest {
                message: m.to_string(),
                secret: kp.secret_key.clone(),
            })
            .map_err(|e| e.message())
            .unwrap(),
        );
    }
    for (m, s) in markers.iter().zip(signed.iter()) {
        assert_eq!(&s.message, m);
        let v = verify_message(VerifyRequest {
            message: m.to_string(),
            signature: s.signature.clone(),
            pubkey: s.public_key.clone(),
        })
        .map_err(|e| e.message())
        .unwrap();
        assert!(v.valid);
        assert_eq!(&v.message, m);
    }
    // Signatures of distinct messages differ.
    assert_ne!(signed[0].signature, signed[1].signature);
}

#[test]
fn error_messages_are_exact() {
    assert_eq!(ApiError::InvalidFromAddress.message(), "Invalid from address");
    assert_eq!(ApiError::InvalidToAddress.message(), "Invalid to address");
    assert_eq!(ApiError::InvalidOwnerAddress.message(), "Invalid owner address");
    assert_eq!(
        ApiError::InvalidDestinationAddress.message(),
        "Invalid destination address"
    );
    assert_eq!(
        ApiError::InvalidAuthorityAddress.message(),
        "Invalid authority address"
    );
    assert_eq!(ApiError::InvalidSecretKey.message(), "Invalid secret key");
    assert_eq!(ApiError::InvalidSignature.message(), "Invalid signature");
    assert_eq!(
        ApiError::InvalidPubkeyAddress.message(),
        "Invalid pubkey address"
    );
}
