use vstd::prelude::*;

verus! {

use crate::codec::{Address, Keypair, Signature};

// ---------------------------------------------------------------------------
// Ed25519 signing and verification.
//
// Signing is deterministic: the signature is a function of the secret seed
// and the message alone.  Verification is total: any correctly-sized inputs
// yield `true` or `false`, never an error.  The three names below stand for
// those functions; the wrappers state what the ledger SDK's source shows
// about them.
// ---------------------------------------------------------------------------

/// The ed25519 public key derived from a 32-byte secret seed.
pub uninterp spec fn ed25519_pubkey_of(seed: Seq<u8>) -> Seq<u8>;

/// The ed25519 signature over `msg` by the secret seed `seed`.
pub uninterp spec fn sig_of(seed: Seq<u8>, msg: Seq<u8>) -> Seq<u8>;

/// Whether `sig` verifies over `msg` under the public key `pubkey`.
pub uninterp spec fn ed25519_verifies(pubkey: Seq<u8>, msg: Seq<u8>, sig: Seq<u8>) -> bool;

/// A 64-byte keypair whose public half is derived from its secret half.
pub open spec fn consistent_keypair(kp: Seq<u8>) -> bool {
    kp.subrange(32, 64) == ed25519_pubkey_of(kp.subrange(0, 32))
}

/// Relies on solana_sdk's `Keypair::new` and `Keypair::to_bytes`: a fresh
/// random keypair as 64 bytes, the public half derived from the secret
/// half.  Nothing is claimed about which keypair comes back.
#[verifier::external_body]
fn generate_keypair_raw() -> (r: Vec<u8>)
    ensures
        r@.len() == 64,
        r@.subrange(32, 64) == ed25519_pubkey_of(r@.subrange(0, 32)),
{
    solana_sdk::signature::Keypair::new().to_bytes().to_vec()
}

/// Relies on solana_sdk's `Keypair::try_from`, which accepts exactly the
/// 64-byte values whose public half matches the key derived from the
/// secret half, and on `Signer::sign_message`: deterministic ed25519, and
/// the produced signature verifies under the keypair's own public key.
#[verifier::external_body]
fn sign_raw(kp: &Vec<u8>, msg: &[u8]) -> (r: Option<Vec<u8>>)
    requires
        kp@.len() == 64,
    ensures
        r is Some <==> consistent_keypair(kp@),
        r matches Some(sig) ==> sig@.len() == 64 && sig@ == sig_of(kp@.subrange(0, 32), msg@)
            && ed25519_verifies(kp@.subrange(32, 64), msg@, sig@),
{
    match solana_sdk::signature::Keypair::try_from(kp.as_slice()) {
        Ok(k) => Some(solana_sdk::signer::Signer::sign_message(&k, msg).as_ref().to_vec()),
        Err(_) => None,
    }
}

/// Relies on solana_sdk's `Keypair::try_from`: succeeds exactly when the
/// public half matches the key derived from the secret half.
#[verifier::external_body]
fn keypair_consistent_raw(kp: &Vec<u8>) -> (r: bool)
    requires
        kp@.len() == 64,
    ensures
        r == consistent_keypair(kp@),
{
    solana_sdk::signature::Keypair::try_from(kp.as_slice()).is_ok()
}

/// Relies on solana_sdk's `Signature::verify`: ed25519 verification of a
/// 64-byte signature under a 32-byte public key; total, `false` on any
/// mismatch or malformed key.
#[verifier::external_body]
fn verify_raw(pubkey: &Vec<u8>, msg: &[u8], sig: &Vec<u8>) -> (r: bool)
    requires
        pubkey@.len() == 32,
        sig@.len() == 64,
    ensures
        r == ed25519_verifies(pubkey@, msg@, sig@),
{
    let s = solana_sdk::signature::Signature::try_from(sig.as_slice()).unwrap();
    s.verify(pubkey.as_slice(), msg)
}

/// Generate a fresh keypair.
pub fn generate_keypair() -> (r: Keypair)
    ensures
        r.wf(),
        consistent_keypair(r@),
{
    Keypair::from_bytes_exact(generate_keypair_raw())
}

/// Whether this keypair's halves belong together.
pub fn keypair_consistent(kp: &Keypair) -> (r: bool)
    requires
        kp.wf(),
    ensures
        r == consistent_keypair(kp@),
{
    keypair_consistent_raw(kp.bytes())
}

/// Sign a message with the keypair's secret seed.  Fails exactly when the
/// keypair's halves do not belong together.
pub fn sign_message_bytes(kp: &Keypair, msg: &[u8]) -> (r: Option<Signature>)
    requires
        kp.wf(),
    ensures
        r is Some <==> consistent_keypair(kp@),
        r matches Some(sig) ==> sig.wf() && sig@ == sig_of(kp.secret(), msg@)
            && ed25519_verifies(kp.public(), msg@, sig@),
{
    match sign_raw(kp.bytes(), msg) {
        Option::Some(v) => Option::Some(Signature::from_bytes_exact(v)),
        Option::None => Option::None,
    }
}

/// Verify a signature over a message under a public key.  Total: a wrong
/// signature yields `false`, never an error.
pub fn verify_signature(pubkey: &Address, msg: &[u8], sig: &Signature) -> (r: bool)
    requires
        pubkey.wf(),
        sig.wf(),
    ensures
        r == ed25519_verifies(pubkey@, msg@, sig@),
{
    verify_raw(pubkey.bytes(), msg, sig.bytes())
}

/// Law: a signature just produced verifies under the keypair's own public
/// key, for every keypair whose halves belong together and every message,
/// the empty message included.
pub fn sign_verify_round_trip(kp: &Keypair, msg: &[u8]) -> (r: Option<bool>)
    requires
        kp.wf(),
    ensures
        r is Some <==> consistent_keypair(kp@),
        r matches Some(ok) ==> ok,
{
    match sign_message_bytes(kp, msg) {
        Option::Some(sig) => {
            let public = kp.public_address();
            Option::Some(verify_signature(&public, msg, &sig))
        },
        Option::None => Option::None,
    }
}

} // verus!
