use vstd::prelude::*;

verus! {

use crate::codec::{
    b58_of, b64_of, decode_address, encode_address, encode_keypair, valid_b58_len, Address,
    KeyEncoding,
};
use crate::crypto::{consistent_keypair, generate_keypair};
use crate::errors::SolanaError;

// ---------------------------------------------------------------------------
// Account creation and lookup.
//
// Creation needs no chain state: it generates a keypair and optionally
// hands the secret back in base-64.  Lookup validates the address here;
// fetching the account itself is the ledger client's work.
// ---------------------------------------------------------------------------

#[derive(Debug)]
pub struct CreateAccountRequest {
    pub save_private_key: bool,
}

#[derive(Debug)]
pub struct CreateAccountResponse {
    pub public_key: String,
    pub private_key: Option<String>,
    pub message: String,
}

/// Create a fresh account keypair.  The secret is returned, base-64, only
/// when the request asks for it; it is never kept.
pub fn process_create_account(req: &CreateAccountRequest) -> (r: CreateAccountResponse)
    ensures
        exists|kp: Seq<u8>|
            kp.len() == 64 && #[trigger] consistent_keypair(kp) && r.public_key@ == b58_of(
                kp.subrange(32, 64),
            ) && (req.save_private_key ==> (r.private_key matches Some(p) && p@ == b64_of(kp))),
        !req.save_private_key ==> r.private_key is None,
        r.message@
            == "Account created successfully. Note: This is a new keypair, it needs to be funded before use."@,
{
    let kp = generate_keypair();
    let public = kp.public_address();
    let private_key = if req.save_private_key {
        Option::Some(encode_keypair(&kp, KeyEncoding::Base64))
    } else {
        Option::None
    };
    CreateAccountResponse {
        public_key: encode_address(&public),
        private_key,
        message: String::from_str(
            "Account created successfully. Note: This is a new keypair, it needs to be funded before use.",
        ),
    }
}

/// Validate the path parameter of an account lookup.  The ledger query
/// that follows is the calling layer's work.
pub fn parse_account_key(pubkey: &str) -> (r: Result<Address, SolanaError>)
    ensures
        r matches Ok(a) ==> a.wf() && b58_of(a@) == pubkey@,
        r is Ok <==> valid_b58_len(pubkey@, 32),
        r matches Err(e) ==> e matches SolanaError::InvalidInput(m) && m@
            == "Invalid public key format"@,
{
    match decode_address(pubkey) {
        Ok(a) => Ok(a),
        Err(_) => Err(SolanaError::InvalidInput(String::from_str("Invalid public key format"))),
    }
}

} // verus!
