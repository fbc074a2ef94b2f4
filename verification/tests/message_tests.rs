use base64::Engine;
use solana_server::codec::encode_base58;
use solana_server::crypto::{generate_keypair, sign_verify_round_trip};
use solana_server::errors::SolanaError;
use solana_server::keypair::process_generate_keypair;
use solana_server::message::{
    process_sign_message, process_verify_message, SignMessageRequest, VerifyMessageRequest,
};

fn fresh_keypair() -> (String, String) {
    let kp = process_generate_keypair();
    (kp.secret, kp.pubkey)
}

#[test]
fn sign_then_verify_hello() {
    let (secret, pubkey) = fresh_keypair();
    let signed = process_sign_message(&SignMessageRequest {
        message: Some("hello".to_string()),
        secret: Some(secret),
    })
    .unwrap();
    assert_eq!(signed.public_key, pubkey);
    assert_eq!(signed.message, "hello");

    let verified = process_verify_message(&VerifyMessageRequest {
        message: Some("hello".to_string()),
        signature: Some(signed.signature.clone()),
        pubkey: Some(pubkey.clone()),
    })
    .unwrap();
    assert!(verified.valid);
    assert_eq!(verified.message, "hello");
    assert_eq!(verified.pubkey, pubkey);

    // Flipping one byte of the signature must turn the answer into a
    // plain `false`, not an error.
    let mut sig_bytes = base64::engine::general_purpose::STANDARD
        .decode(&signed.signature)
        .unwrap();
    sig_bytes[0] ^= 1;
    let flipped = base64::engine::general_purpose::STANDARD.encode(&sig_bytes);
    let verified_flipped = process_verify_message(&VerifyMessageRequest {
        message: Some("hello".to_string()),
        signature: Some(flipped),
        pubkey: Some(pubkey),
    })
    .unwrap();
    assert!(!verified_flipped.valid);
}

#[test]
fn verify_fails_for_other_message_and_other_key() {
    let (secret, pubkey) = fresh_keypair();
    let (_, other_pubkey) = fresh_keypair();
    let signed = process_sign_message(&SignMessageRequest {
        message: Some("hello".to_string()),
        secret: Some(secret),
    })
    .unwrap();

    let other_message = process_verify_message(&VerifyMessageRequest {
        message: Some("hellp".to_string()),
        signature: Some(signed.signature.clone()),
        pubkey: Some(pubkey),
    })
    .unwrap();
    assert!(!other_message.valid);

    let other_key = process_verify_message(&VerifyMessageRequest {
        message: Some("hello".to_string()),
        signature: Some(signed.signature),
        pubkey: Some(other_pubkey),
    })
    .unwrap();
    assert!(!other_key.valid);
}

#[test]
fn signing_is_deterministic() {
    let (secret, _) = fresh_keypair();
    let first = process_sign_message(&SignMessageRequest {
        message: Some("same message".to_string()),
        secret: Some(secret.clone()),
    })
    .unwrap();
    let second = process_sign_message(&SignMessageRequest {
        message: Some("same message".to_string()),
        secret: Some(secret),
    })
    .unwrap();
    assert_eq!(first.signature, second.signature);
}

#[test]
fn sign_verify_law_holds_for_empty_message() {
    let kp = generate_keypair();
    assert_eq!(sign_verify_round_trip(&kp, b""), Some(true));
    assert_eq!(sign_verify_round_trip(&kp, b"any bytes at all"), Some(true));
}

#[test]
fn sign_missing_field_beats_invalid_secret() {
    let req = SignMessageRequest {
        message: None,
        secret: Some("!!!".to_string()),
    };
    assert!(matches!(process_sign_message(&req), Err(SolanaError::MissingFields)));
}

#[test]
fn sign_blank_message_is_missing() {
    let (secret, _) = fresh_keypair();
    let req = SignMessageRequest {
        message: Some("  ".to_string()),
        secret: Some(secret),
    };
    assert!(matches!(process_sign_message(&req), Err(SolanaError::MissingFields)));
}

#[test]
fn sign_rejects_bad_secret_format() {
    let req = SignMessageRequest {
        message: Some("hello".to_string()),
        secret: Some("0OIl not base58".to_string()),
    };
    match process_sign_message(&req) {
        Err(SolanaError::InvalidInput(m)) => assert_eq!(m, "Invalid secret key format"),
        other => panic!("unexpected: {:?}", other),
    }
}

#[test]
fn sign_rejects_wrong_secret_length() {
    let req = SignMessageRequest {
        message: Some("hello".to_string()),
        secret: Some(encode_base58(&vec![1u8; 10])),
    };
    match process_sign_message(&req) {
        Err(SolanaError::InvalidInput(m)) => assert_eq!(m, "Invalid secret key length"),
        other => panic!("unexpected: {:?}", other),
    }
}

#[test]
fn sign_rejects_inconsistent_keypair() {
    // 64 bytes whose second half is not the public key of the first half.
    let req = SignMessageRequest {
        message: Some("hello".to_string()),
        secret: Some(encode_base58(&vec![1u8; 64])),
    };
    match process_sign_message(&req) {
        Err(SolanaError::InvalidInput(m)) => assert_eq!(m, "Invalid secret key"),
        other => panic!("unexpected: {:?}", other),
    }
}

#[test]
fn verify_rejects_bad_pubkey_then_bad_signature() {
    let bad_pubkey = process_verify_message(&VerifyMessageRequest {
        message: Some("hello".to_string()),
        signature: Some("also bad!".to_string()),
        pubkey: Some("0OIl".to_string()),
    });
    match bad_pubkey {
        Err(SolanaError::InvalidInput(m)) => assert_eq!(m, "Invalid public key format"),
        other => panic!("unexpected: {:?}", other),
    }

    let (_, pubkey) = fresh_keypair();
    let bad_signature = process_verify_message(&VerifyMessageRequest {
        message: Some("hello".to_string()),
        signature: Some("%%% not base64 %%%".to_string()),
        pubkey: Some(pubkey.clone()),
    });
    match bad_signature {
        Err(SolanaError::InvalidInput(m)) => assert_eq!(m, "Invalid signature format"),
        other => panic!("unexpected: {:?}", other),
    }

    let short_signature = process_verify_message(&VerifyMessageRequest {
        message: Some("hello".to_string()),
        signature: Some("aGVsbG8=".to_string()),
        pubkey: Some(pubkey),
    });
    match short_signature {
        Err(SolanaError::InvalidInput(m)) => assert_eq!(m, "Invalid signature length"),
        other => panic!("unexpected: {:?}", other),
    }
}

#[test]
fn verify_missing_field_beats_invalid_format() {
    let req = VerifyMessageRequest {
        message: Some("hello".to_string()),
        signature: None,
        pubkey: Some("0OIl".to_string()),
    };
    assert!(matches!(process_verify_message(&req), Err(SolanaError::MissingFields)));
}
