use vstd::prelude::*;

verus! {

use crate::codec::{b58_of, encode_address, encode_keypair, KeyEncoding};
use crate::crypto::{consistent_keypair, generate_keypair};

/// The wire shape of a freshly generated keypair, both halves base-58.
#[derive(Debug)]
pub struct KeypairResponse {
    pub pubkey: String,
    pub secret: String,
}

/// Generate a fresh keypair and render it: the full 64 bytes as the
/// secret, the public half alone as the pubkey, both base-58.
pub fn process_generate_keypair() -> (r: KeypairResponse)
    ensures
        exists|kp: Seq<u8>|
            kp.len() == 64 && #[trigger] consistent_keypair(kp) && r.secret@ == b58_of(kp)
                && r.pubkey@ == b58_of(kp.subrange(32, 64)),
{
    let kp = generate_keypair();
    let public = kp.public_address();
    KeypairResponse {
        pubkey: encode_address(&public),
        secret: encode_keypair(&kp, KeyEncoding::Base58),
    }
}

} // verus!
