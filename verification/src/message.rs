use vstd::prelude::*;

verus! {

use vstd::utf8::encode_utf8;
use crate::codec::{
    b58_of, b58_bytes, b58_bytes_len, b64_of, b64_bytes, b64_bytes_len, decode_address,
    decode_keypair, decode_signature, encode_address, encode_signature, valid_b58, valid_b58_len,
    valid_b64, valid_b64_len, FormatError, KeyEncoding,
};
use crate::crypto::{
    consistent_keypair, ed25519_verifies, sig_of, sign_message_bytes, verify_signature,
};
use crate::errors::SolanaError;
use crate::validate::{required_str, str_missing};

// ---------------------------------------------------------------------------
// Message signing and verification.
//
// Signing takes a base-58 keypair and an arbitrary message; the signature
// travels in base-64.  Verification is total: once the formats decode, a
// wrong signature answers `false` rather than failing.
// ---------------------------------------------------------------------------

#[derive(Debug)]
pub struct SignMessageRequest {
    pub message: Option<String>,
    pub secret: Option<String>,
}

#[derive(Debug)]
pub struct VerifyMessageRequest {
    pub message: Option<String>,
    pub signature: Option<String>,
    pub pubkey: Option<String>,
}

#[derive(Debug)]
pub struct SignMessageResponse {
    pub signature: String,
    pub public_key: String,
    pub message: String,
}

#[derive(Debug)]
pub struct VerifyMessageResponse {
    pub valid: bool,
    pub message: String,
    pub pubkey: String,
}

/// A required field of the signing request is absent or blank.
pub open spec fn sign_message_missing(req: SignMessageRequest) -> bool {
    str_missing(req.message) || str_missing(req.secret)
}

/// The secret decodes to a 64-byte keypair whose halves belong together.
pub open spec fn sign_message_ok(req: SignMessageRequest) -> bool {
    &&& !sign_message_missing(req)
    &&& valid_b58_len(req.secret->0@, 64)
    &&& consistent_keypair(b58_bytes_len(req.secret->0@, 64))
}

/// Sign a message with a base-58 keypair.
///
/// Presence is checked first; then the secret must be base-58, must
/// decode to exactly 64 bytes, and its public half must match its secret
/// half.  The signature returned is the deterministic ed25519 signature
/// over the message's bytes, in base-64.
pub fn process_sign_message(req: &SignMessageRequest) -> (r: Result<
    SignMessageResponse,
    SolanaError,
>)
    ensures
        sign_message_missing(*req) ==> (r matches Err(e) && e is MissingFields),
        !sign_message_missing(*req) && !valid_b58(req.secret->0@) ==> (r matches Err(e)
            && e matches SolanaError::InvalidInput(m) && m@ == "Invalid secret key format"@),
        !sign_message_missing(*req) && valid_b58(req.secret->0@) && b58_bytes(req.secret->0@).len()
            != 64 ==> (r matches Err(e) && e matches SolanaError::InvalidInput(m) && m@
            == "Invalid secret key length"@),
        !sign_message_missing(*req) && valid_b58_len(req.secret->0@, 64) && !consistent_keypair(
            b58_bytes_len(req.secret->0@, 64),
        ) ==> (r matches Err(e) && e matches SolanaError::InvalidInput(m) && m@
            == "Invalid secret key"@),
        sign_message_ok(*req) ==> (r matches Ok(resp) && resp.signature@ == b64_of(
            sig_of(
                b58_bytes_len(req.secret->0@, 64).subrange(0, 32),
                encode_utf8(req.message->0@),
            ),
        ) && resp.public_key@ == b58_of(b58_bytes_len(req.secret->0@, 64).subrange(32, 64))
            && resp.message@ == req.message->0@),
        r is Ok <==> sign_message_ok(*req),
{
    let message_text = match required_str(&req.message) {
        Ok(s) => s,
        Err(e) => return Err(e),
    };
    let secret_text = match required_str(&req.secret) {
        Ok(s) => s,
        Err(e) => return Err(e),
    };
    let kp = match decode_keypair(secret_text.as_str(), KeyEncoding::Base58) {
        Ok(kp) => kp,
        Err(FormatError::Malformed) => return Err(
            SolanaError::InvalidInput(String::from_str("Invalid secret key format")),
        ),
        Err(FormatError::WrongLength) => return Err(
            SolanaError::InvalidInput(String::from_str("Invalid secret key length")),
        ),
    };
    let msg_bytes = message_text.as_str().as_bytes();
    let sig = match sign_message_bytes(&kp, msg_bytes) {
        Option::Some(sig) => sig,
        Option::None => return Err(
            SolanaError::InvalidInput(String::from_str("Invalid secret key")),
        ),
    };
    let public = kp.public_address();
    Ok(
        SignMessageResponse {
            signature: encode_signature(&sig),
            public_key: encode_address(&public),
            message: message_text.clone(),
        },
    )
}

/// A required field of the verification request is absent or blank.
pub open spec fn verify_message_missing(req: VerifyMessageRequest) -> bool {
    str_missing(req.message) || str_missing(req.signature) || str_missing(req.pubkey)
}

/// Every format of the verification request decodes.
pub open spec fn verify_message_ok(req: VerifyMessageRequest) -> bool {
    &&& !verify_message_missing(req)
    &&& valid_b58_len(req.pubkey->0@, 32)
    &&& valid_b64_len(req.signature->0@, 64)
}

/// Verify a base-64 signature over a message under a base-58 public key.
///
/// Presence is checked first, then the public key's format, then the
/// signature's.  Once everything decodes the answer is always 200: a
/// signature by another key or over another message yields `valid: false`,
/// never an error.
pub fn process_verify_message(req: &VerifyMessageRequest) -> (r: Result<
    VerifyMessageResponse,
    SolanaError,
>)
    ensures
        verify_message_missing(*req) ==> (r matches Err(e) && e is MissingFields),
        !verify_message_missing(*req) && !valid_b58_len(req.pubkey->0@, 32) ==> (r matches Err(e)
            && e matches SolanaError::InvalidInput(m) && m@ == "Invalid public key format"@),
        !verify_message_missing(*req) && valid_b58_len(req.pubkey->0@, 32) && !valid_b64(
            req.signature->0@,
        ) ==> (r matches Err(e) && e matches SolanaError::InvalidInput(m) && m@
            == "Invalid signature format"@),
        !verify_message_missing(*req) && valid_b58_len(req.pubkey->0@, 32) && valid_b64(
            req.signature->0@,
        ) && b64_bytes(req.signature->0@).len() != 64 ==> (r matches Err(e)
            && e matches SolanaError::InvalidInput(m) && m@ == "Invalid signature length"@),
        verify_message_ok(*req) ==> (r matches Ok(resp) && resp.valid == ed25519_verifies(
            b58_bytes_len(req.pubkey->0@, 32),
            encode_utf8(req.message->0@),
            b64_bytes_len(req.signature->0@, 64),
        ) && resp.message@ == req.message->0@ && resp.pubkey@ == req.pubkey->0@),
        r is Ok <==> verify_message_ok(*req),
{
    let message_text = match required_str(&req.message) {
        Ok(s) => s,
        Err(e) => return Err(e),
    };
    let signature_text = match required_str(&req.signature) {
        Ok(s) => s,
        Err(e) => return Err(e),
    };
    let pubkey_text = match required_str(&req.pubkey) {
        Ok(s) => s,
        Err(e) => return Err(e),
    };
    let pubkey_addr = match decode_address(pubkey_text.as_str()) {
        Ok(a) => a,
        Err(_) => return Err(
            SolanaError::InvalidInput(String::from_str("Invalid public key format")),
        ),
    };
    let sig = match decode_signature(signature_text.as_str()) {
        Ok(sig) => sig,
        Err(FormatError::Malformed) => return Err(
            SolanaError::InvalidInput(String::from_str("Invalid signature format")),
        ),
        Err(FormatError::WrongLength) => return Err(
            SolanaError::InvalidInput(String::from_str("Invalid signature length")),
        ),
    };
    let msg_bytes = message_text.as_str().as_bytes();
    let valid = verify_signature(&pubkey_addr, msg_bytes, &sig);
    Ok(
        VerifyMessageResponse {
            valid,
            message: message_text.clone(),
            pubkey: pubkey_text.clone(),
        },
    )
}

} // verus!
