use vstd::prelude::*;

verus! {

use crate::codec::{b58_of, decode_address, valid_b58_len, Address};
use crate::errors::SolanaError;

// ---------------------------------------------------------------------------
// Airdrop validation.
//
// The service accepts airdrops of up to 5 units.  Everything here is
// checked before any ledger call is made: a request that fails validation
// never reaches the network.
// ---------------------------------------------------------------------------

/// Lamports in one unit of the native currency.
pub const LAMPORTS_PER_SOL: u64 = 1_000_000_000;

/// The service-level ceiling on one airdrop: 5 units.
pub const MAX_AIRDROP_LAMPORTS: u64 = 5_000_000_000;

/// Validate an airdrop request: the recipient's address must decode and
/// the amount, in lamports, must lie in (0, 5 units].  Runs before any
/// ledger call, so an invalid request makes none.
pub fn validate_airdrop(public_key: &str, lamports: u64) -> (r: Result<Address, SolanaError>)
    ensures
        !valid_b58_len(public_key@, 32) ==> (r matches Err(e)
            && e matches SolanaError::InvalidInput(m) && m@ == "Invalid public key format"@),
        valid_b58_len(public_key@, 32) && !(0 < lamports <= MAX_AIRDROP_LAMPORTS) ==> (
        r matches Err(e) && e matches SolanaError::InvalidInput(m) && m@
            == "Amount must be between 0.1 and 5.0 SOL for devnet"@),
        r matches Ok(a) ==> a.wf() && b58_of(a@) == public_key@,
        r is Ok <==> valid_b58_len(public_key@, 32) && 0 < lamports <= MAX_AIRDROP_LAMPORTS,
{
    let address = match decode_address(public_key) {
        Ok(a) => a,
        Err(_) => return Err(
            SolanaError::InvalidInput(String::from_str("Invalid public key format")),
        ),
    };
    if lamports == 0 || lamports > MAX_AIRDROP_LAMPORTS {
        return Err(
            SolanaError::InvalidInput(
                String::from_str("Amount must be between 0.1 and 5.0 SOL for devnet"),
            ),
        );
    }
    Ok(address)
}

/// Judge the confirmation of a submitted airdrop: an unconfirmed
/// transaction is a failure, not a success with a warning.
pub fn check_airdrop_confirmation(confirmed: bool) -> (r: Result<(), SolanaError>)
    ensures
        r is Ok <==> confirmed,
        r matches Err(e) ==> e matches SolanaError::TransactionFailed(m) && m@
            == "Airdrop transaction failed to confirm"@,
{
    if confirmed {
        Ok(())
    } else {
        Err(
            SolanaError::TransactionFailed(
                String::from_str("Airdrop transaction failed to confirm"),
            ),
        )
    }
}

} // verus!
