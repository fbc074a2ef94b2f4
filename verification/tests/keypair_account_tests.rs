use solana_server::account::{parse_account_key, process_create_account, CreateAccountRequest};
use solana_server::codec::{decode_base58, decode_base64, encode_base58};
use solana_server::errors::SolanaError;
use solana_server::keypair::process_generate_keypair;

#[test]
fn generated_keypair_has_matching_halves() {
    let resp = process_generate_keypair();
    let kp_bytes = decode_base58(&resp.secret, 64).unwrap();
    let pub_bytes = decode_base58(&resp.pubkey, 32).unwrap();
    assert_eq!(&kp_bytes[32..], &pub_bytes[..]);
}

#[test]
fn generated_keypairs_differ() {
    let first = process_generate_keypair();
    let second = process_generate_keypair();
    assert_ne!(first.secret, second.secret);
    assert_ne!(first.pubkey, second.pubkey);
}

#[test]
fn create_account_returns_secret_only_when_asked() {
    let with_secret = process_create_account(&CreateAccountRequest { save_private_key: true });
    let private = with_secret.private_key.expect("secret requested");
    let kp_bytes = decode_base64(&private, 64).unwrap();
    let pub_bytes = decode_base58(&with_secret.public_key, 32).unwrap();
    assert_eq!(&kp_bytes[32..], &pub_bytes[..]);
    assert_eq!(
        with_secret.message,
        "Account created successfully. Note: This is a new keypair, it needs to be funded before use."
    );

    let without_secret = process_create_account(&CreateAccountRequest { save_private_key: false });
    assert!(without_secret.private_key.is_none());
}

#[test]
fn account_lookup_key_is_validated() {
    let good = encode_base58(&vec![4u8; 32]);
    let parsed = parse_account_key(&good).unwrap();
    assert_eq!(parsed.bytes(), &vec![4u8; 32]);

    match parse_account_key("0OIl") {
        Err(SolanaError::InvalidInput(m)) => assert_eq!(m, "Invalid public key format"),
        other => panic!("unexpected: {:?}", other),
    }
    match parse_account_key(&encode_base58(&vec![4u8; 31])) {
        Err(SolanaError::InvalidInput(m)) => assert_eq!(m, "Invalid public key format"),
        other => panic!("unexpected: {:?}", other),
    }
}
