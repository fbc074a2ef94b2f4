use vstd::prelude::*;

verus! {

use crate::codec::{
    b58_of, b64_bytes, b64_bytes_len, decode_address, decode_keypair, valid_b58_len, valid_b64,
    valid_b64_len, Address, FormatError, Keypair, KeyEncoding,
};
use crate::crypto::{consistent_keypair, keypair_consistent};
use crate::errors::SolanaError;

// ---------------------------------------------------------------------------
// The funded transfer: the one operation that moves real balance.
//
// This module holds its decisions: validating and decoding the request,
// and the balance gate.  Fetching the balance and the blockhash, signing
// the transaction envelope and submitting it are the ledger client's
// work, done by the calling layer with the values validated here.
// ---------------------------------------------------------------------------

/// A funded transfer, validated and decoded: the sender's keypair, the
/// recipient, and the amount in lamports.
#[derive(Debug)]
pub struct ValidatedTransfer {
    pub keypair: Keypair,
    pub to: Address,
    pub lamports: u64,
}

impl ValidatedTransfer {
    pub open spec fn wf(&self) -> bool {
        self.keypair.wf() && self.to.wf() && consistent_keypair(self.keypair@)
    }
}

/// Every check of the funded-transfer request passes.
pub open spec fn transfer_ok(to_public_key: Seq<char>, from_private_key: Seq<char>, lamports: u64) -> bool {
    &&& valid_b58_len(to_public_key, 32)
    &&& valid_b64_len(from_private_key, 64)
    &&& consistent_keypair(b64_bytes_len(from_private_key, 64))
    &&& lamports > 0
}

/// Validate a funded transfer: the recipient's address, then the base-64
/// keypair (64 bytes whose halves belong together), then the amount.
pub fn validate_transfer(from_private_key: &str, to_public_key: &str, lamports: u64) -> (r: Result<
    ValidatedTransfer,
    SolanaError,
>)
    ensures
        !valid_b58_len(to_public_key@, 32) ==> (r matches Err(e)
            && e matches SolanaError::InvalidInput(m) && m@
            == "Invalid recipient public key format"@),
        valid_b58_len(to_public_key@, 32) && !valid_b64(from_private_key@) ==> (r matches Err(e)
            && e matches SolanaError::InvalidInput(m) && m@ == "Invalid private key format"@),
        valid_b58_len(to_public_key@, 32) && valid_b64(from_private_key@) && (b64_bytes(
            from_private_key@,
        ).len() != 64 || !consistent_keypair(b64_bytes_len(from_private_key@, 64))) ==> (
        r matches Err(e) && e matches SolanaError::InvalidInput(m) && m@
            == "Invalid private key"@),
        valid_b58_len(to_public_key@, 32) && valid_b64_len(from_private_key@, 64)
            && consistent_keypair(b64_bytes_len(from_private_key@, 64)) && lamports == 0 ==> (
        r matches Err(e) && e matches SolanaError::InvalidInput(m) && m@
            == "Amount must be greater than 0"@),
        r matches Ok(v) ==> v.wf() && b58_of(v.to@) == to_public_key@ && v.keypair@
            == b64_bytes_len(from_private_key@, 64) && v.lamports == lamports,
        r is Ok <==> transfer_ok(to_public_key@, from_private_key@, lamports),
{
    let to_addr = match decode_address(to_public_key) {
        Ok(a) => a,
        Err(_) => return Err(
            SolanaError::InvalidInput(String::from_str("Invalid recipient public key format")),
        ),
    };
    let keypair = match decode_keypair(from_private_key, KeyEncoding::Base64) {
        Ok(kp) => kp,
        Err(FormatError::Malformed) => return Err(
            SolanaError::InvalidInput(String::from_str("Invalid private key format")),
        ),
        Err(FormatError::WrongLength) => return Err(
            SolanaError::InvalidInput(String::from_str("Invalid private key")),
        ),
    };
    if !keypair_consistent(&keypair) {
        return Err(SolanaError::InvalidInput(String::from_str("Invalid private key")));
    }
    if lamports == 0 {
        return Err(SolanaError::InvalidInput(String::from_str("Amount must be greater than 0")));
    }
    Ok(ValidatedTransfer { keypair, to: to_addr, lamports })
}

/// The funded transfer's balance gate: fail fast when the sender cannot
/// cover the amount.
pub fn check_funds(balance: u64, lamports: u64) -> (r: Result<(), SolanaError>)
    ensures
        r is Ok <==> balance >= lamports,
        r matches Err(e) ==> e is InsufficientFunds,
{
    if balance < lamports {
        Err(SolanaError::InsufficientFunds)
    } else {
        Ok(())
    }
}

} // verus!
