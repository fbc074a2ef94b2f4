use solana_server::codec::{
    address_round_trip, decode_address, decode_base58, decode_base64, decode_keypair,
    decode_signature, encode_address, encode_base58, encode_base64, encode_keypair,
    encode_signature, keypair_round_trip, signature_round_trip, Address, FormatError, KeyEncoding,
    Keypair, Signature,
};

#[test]
fn address_encode_decode_round_trips() {
    let a = Address::from_bytes(vec![1u8; 32]).unwrap();
    assert!(address_round_trip(&a));
    let text = encode_address(&a);
    let back = decode_address(&text).unwrap();
    assert_eq!(back.bytes(), a.bytes());
}

#[test]
fn address_known_base58_values() {
    let zero = Address::from_bytes(vec![0u8; 32]).unwrap();
    assert_eq!(encode_address(&zero), "11111111111111111111111111111111");
    let one = Address::from_bytes(vec![1u8; 32]).unwrap();
    assert_eq!(encode_address(&one), "4vJ9JU1bJJE96FWSJKvHsmmFADCg4gpZQff4P3bkLKi");
}

#[test]
fn address_rejects_bad_alphabet() {
    assert!(matches!(decode_address("not-valid-0OIl!"), Err(FormatError::Malformed)));
}

#[test]
fn address_rejects_wrong_length() {
    let short = encode_base58(&vec![5u8; 31]);
    assert!(matches!(decode_address(&short), Err(FormatError::WrongLength)));
    let long = encode_base58(&vec![5u8; 33]);
    assert!(matches!(decode_address(&long), Err(FormatError::WrongLength)));
}

#[test]
fn signature_encode_decode_round_trips() {
    let s = Signature::from_bytes((0u8..64).collect()).unwrap();
    assert!(signature_round_trip(&s));
    let text = encode_signature(&s);
    let back = decode_signature(&text).unwrap();
    assert_eq!(back.bytes(), s.bytes());
}

#[test]
fn signature_rejects_wrong_length() {
    let short = encode_base64(&vec![9u8; 63]);
    assert!(matches!(decode_signature(&short), Err(FormatError::WrongLength)));
}

#[test]
fn keypair_round_trips_in_both_encodings() {
    let kp = Keypair::from_bytes((0u8..64).rev().collect()).unwrap();
    assert!(keypair_round_trip(&kp, KeyEncoding::Base58));
    assert!(keypair_round_trip(&kp, KeyEncoding::Base64));
    let b58 = encode_keypair(&kp, KeyEncoding::Base58);
    let b64 = encode_keypair(&kp, KeyEncoding::Base64);
    assert_eq!(decode_keypair(&b58, KeyEncoding::Base58).unwrap().bytes(), kp.bytes());
    assert_eq!(decode_keypair(&b64, KeyEncoding::Base64).unwrap().bytes(), kp.bytes());
}

#[test]
fn base64_known_value() {
    let hello = vec![104u8, 101, 108, 108, 111];
    assert_eq!(encode_base64(&hello), "aGVsbG8=");
    assert_eq!(decode_base64("aGVsbG8=", 5).unwrap(), hello);
}

#[test]
fn base58_decode_known_value() {
    let v = decode_base58("11111111111111111111111111111111", 32).unwrap();
    assert_eq!(v, vec![0u8; 32]);
}

#[test]
fn length_constructors_reject_bad_sizes() {
    assert!(matches!(Address::from_bytes(vec![0u8; 31]), Err(FormatError::WrongLength)));
    assert!(matches!(Signature::from_bytes(vec![0u8; 65]), Err(FormatError::WrongLength)));
    assert!(matches!(Keypair::from_bytes(vec![0u8; 63]), Err(FormatError::WrongLength)));
}
