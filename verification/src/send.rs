use vstd::prelude::*;

verus! {

use crate::codec::{
    b58_of, b58_bytes_len, b64_of, decode_address, encode_address, encode_base64, valid_b58_len,
};
use crate::derivation::ata_of;
use crate::errors::SolanaError;
use crate::instruction::{
    build_native_transfer, build_token_transfer, native_transfer_data, system_program_id,
    token_program_id, token_transfer_data, AccountRef,
};
use crate::validate::{required_str, required_u64, str_missing};

// ---------------------------------------------------------------------------
// Unsigned transfer construction: native currency and token assets.
//
// Checks run in a fixed order: presence, then format, then range, then
// cross-field; the first violation decides the error.
// ---------------------------------------------------------------------------

/// The service-level ceiling on a native transfer: 100 units.
pub const MAX_TRANSFER_LAMPORTS: u64 = 100_000_000_000;

#[derive(Debug)]
pub struct SendSolRequest {
    pub from: Option<String>,
    pub to: Option<String>,
    pub lamports: Option<u64>,
}

#[derive(Debug)]
pub struct SendTokenRequest {
    pub destination: Option<String>,
    pub mint: Option<String>,
    pub owner: Option<String>,
    pub amount: Option<u64>,
}

#[derive(Debug)]
pub struct SendSolResponse {
    pub program_id: String,
    pub accounts: Vec<String>,
    pub instruction_data: String,
}

#[derive(Debug)]
pub struct AccountMetaTokenResponse {
    pub pubkey: String,
    pub is_signer: bool,
}

#[derive(Debug)]
pub struct SendTokenResponse {
    pub program_id: String,
    pub accounts: Vec<AccountMetaTokenResponse>,
    pub instruction_data: String,
}

/// A required field of the native-transfer request is absent or blank.
pub open spec fn send_sol_missing(req: SendSolRequest) -> bool {
    str_missing(req.from) || str_missing(req.to) || req.lamports is None
}

/// Both addresses of the native-transfer request decode to 32 bytes.
pub open spec fn send_sol_formats_ok(req: SendSolRequest) -> bool {
    valid_b58_len(req.from->0@, 32) && valid_b58_len(req.to->0@, 32)
}

/// The lamport amount is positive and within the service ceiling.
pub open spec fn send_sol_range_ok(req: SendSolRequest) -> bool {
    0 < req.lamports->0 <= MAX_TRANSFER_LAMPORTS
}

/// Every check of the native-transfer request passes.
pub open spec fn send_sol_ok(req: SendSolRequest) -> bool {
    &&& !send_sol_missing(req)
    &&& send_sol_formats_ok(req)
    &&& send_sol_range_ok(req)
    &&& req.from->0@ != req.to->0@
}

/// Encode each account's address to its base-58 text.
fn encode_account_addresses(accounts: &Vec<AccountRef>) -> (r: Vec<String>)
    requires
        forall|i: int| 0 <= i < accounts@.len() ==> (#[trigger] accounts@[i]).wf(),
    ensures
        r@.len() == accounts@.len(),
        forall|i: int| 0 <= i < r@.len() ==> (#[trigger] r@[i])@ == b58_of(
            accounts@[i].address@,
        ),
{
    let mut out: Vec<String> = Vec::new();
    let n = accounts.len();
    let mut i: usize = 0;
    while i < n
        invariant
            n == accounts@.len(),
            i <= n,
            out@.len() == i,
            forall|k: int| 0 <= k < accounts@.len() ==> (#[trigger] accounts@[k]).wf(),
            forall|k: int| 0 <= k < i ==> (#[trigger] out@[k])@ == b58_of(accounts@[k].address@),
        decreases n - i,
    {
        out.push(encode_address(&accounts[i].address));
        i += 1;
    }
    out
}

/// Construct an unsigned native transfer from the raw request.
///
/// Presence is checked first, then the two address formats, then the
/// amount range, then that sender and recipient differ.  On success the
/// response carries the system program's address, the sender and recipient
/// in that order, and the instruction data in base-64.
pub fn process_send_sol(req: &SendSolRequest) -> (r: Result<SendSolResponse, SolanaError>)
    ensures
        send_sol_missing(*req) ==> (r matches Err(e) && e is MissingFields),
        !send_sol_missing(*req) && !valid_b58_len(req.from->0@, 32) ==> (r matches Err(e)
            && e matches SolanaError::InvalidInput(m) && m@ == "Invalid sender address"@),
        !send_sol_missing(*req) && valid_b58_len(req.from->0@, 32) && !valid_b58_len(
            req.to->0@,
            32,
        ) ==> (r matches Err(e) && e matches SolanaError::InvalidInput(m) && m@
            == "Invalid recipient address"@),
        !send_sol_missing(*req) && send_sol_formats_ok(*req) && req.lamports->0 == 0 ==> (
        r matches Err(e) && e matches SolanaError::InvalidInput(m) && m@
            == "Amount must be at least 1 lamport"@),
        !send_sol_missing(*req) && send_sol_formats_ok(*req) && req.lamports->0
            > MAX_TRANSFER_LAMPORTS ==> (r matches Err(e) && e matches SolanaError::InvalidInput(m)
            && m@ == "Amount exceeds maximum limit (100 SOL)"@),
        !send_sol_missing(*req) && send_sol_formats_ok(*req) && send_sol_range_ok(*req)
            && req.from->0@ == req.to->0@ ==> (r matches Err(e)
            && e matches SolanaError::InvalidInput(m) && m@
            == "Sender and recipient cannot be the same"@),
        send_sol_ok(*req) ==> (r matches Ok(resp) && resp.program_id@ == b58_of(
            system_program_id(),
        ) && resp.accounts@.len() == 2 && resp.accounts@[0]@ == req.from->0@ && resp.accounts@[1]@
            == req.to->0@ && resp.instruction_data@ == b64_of(
            native_transfer_data(req.lamports->0),
        )),
        r is Ok <==> send_sol_ok(*req),
{
    let from_text = match required_str(&req.from) {
        Ok(s) => s,
        Err(e) => return Err(e),
    };
    let to_text = match required_str(&req.to) {
        Ok(s) => s,
        Err(e) => return Err(e),
    };
    let lamports = match required_u64(&req.lamports) {
        Ok(v) => v,
        Err(e) => return Err(e),
    };
    let from_addr = match decode_address(from_text.as_str()) {
        Ok(a) => a,
        Err(_) => return Err(
            SolanaError::InvalidInput(String::from_str("Invalid sender address")),
        ),
    };
    let to_addr = match decode_address(to_text.as_str()) {
        Ok(a) => a,
        Err(_) => return Err(
            SolanaError::InvalidInput(String::from_str("Invalid recipient address")),
        ),
    };
    if lamports == 0 {
        return Err(SolanaError::InvalidInput(String::from_str("Amount must be at least 1 lamport")));
    }
    if lamports > MAX_TRANSFER_LAMPORTS {
        return Err(
            SolanaError::InvalidInput(String::from_str("Amount exceeds maximum limit (100 SOL)")),
        );
    }
    if from_addr.same_as(&to_addr) {
        return Err(
            SolanaError::InvalidInput(String::from_str("Sender and recipient cannot be the same")),
        );
    }
    let ins = build_native_transfer(&from_addr, &to_addr, lamports);
    let data_text = encode_base64(&ins.data);
    Ok(
        SendSolResponse {
            program_id: encode_address(&ins.program),
            accounts: encode_account_addresses(&ins.accounts),
            instruction_data: data_text,
        },
    )
}

/// A required field of the token-transfer request is absent or blank.
pub open spec fn send_token_missing(req: SendTokenRequest) -> bool {
    str_missing(req.destination) || str_missing(req.mint) || str_missing(req.owner)
        || req.amount is None
}

/// All three addresses of the token-transfer request decode to 32 bytes.
pub open spec fn send_token_formats_ok(req: SendTokenRequest) -> bool {
    valid_b58_len(req.destination->0@, 32) && valid_b58_len(req.mint->0@, 32) && valid_b58_len(
        req.owner->0@,
        32,
    )
}

/// The token amount is positive and within the overflow guard.
pub open spec fn send_token_range_ok(req: SendTokenRequest) -> bool {
    0 < req.amount->0 <= u64::MAX / 2
}

/// Every check of the token-transfer request passes.
pub open spec fn send_token_ok(req: SendTokenRequest) -> bool {
    &&& !send_token_missing(req)
    &&& send_token_formats_ok(req)
    &&& send_token_range_ok(req)
    &&& req.owner->0@ != req.destination->0@
}

/// Construct an unsigned token transfer from the raw request.
///
/// Presence is checked first, then the three address formats, then the
/// amount range, then that owner and destination differ.  On success the
/// accounts are the owner's associated account, the destination's
/// associated account, and the owner, in that order.
pub fn process_send_token(req: &SendTokenRequest) -> (r: Result<SendTokenResponse, SolanaError>)
    ensures
        send_token_missing(*req) ==> (r matches Err(e) && e is MissingFields),
        !send_token_missing(*req) && !valid_b58_len(req.destination->0@, 32) ==> (r matches Err(e)
            && e matches SolanaError::InvalidInput(m) && m@
            == "Invalid destination wallet address"@),
        !send_token_missing(*req) && valid_b58_len(req.destination->0@, 32) && !valid_b58_len(
            req.mint->0@,
            32,
        ) ==> (r matches Err(e) && e matches SolanaError::InvalidInput(m) && m@
            == "Invalid mint address"@),
        !send_token_missing(*req) && valid_b58_len(req.destination->0@, 32) && valid_b58_len(
            req.mint->0@,
            32,
        ) && !valid_b58_len(req.owner->0@, 32) ==> (r matches Err(e)
            && e matches SolanaError::InvalidInput(m) && m@ == "Invalid owner address"@),
        !send_token_missing(*req) && send_token_formats_ok(*req) && req.amount->0 == 0 ==> (
        r matches Err(e) && e matches SolanaError::InvalidInput(m) && m@
            == "Amount must be greater than 0"@),
        !send_token_missing(*req) && send_token_formats_ok(*req) && req.amount->0 > u64::MAX / 2
            ==> (r matches Err(e) && e matches SolanaError::InvalidInput(m) && m@
            == "Token amount is too large"@),
        !send_token_missing(*req) && send_token_formats_ok(*req) && send_token_range_ok(*req)
            && req.owner->0@ == req.destination->0@ ==> (r matches Err(e)
            && e matches SolanaError::InvalidInput(m) && m@
            == "Token owner and destination cannot be the same"@),
        send_token_ok(*req) ==> (r matches Ok(resp) && resp.program_id@ == b58_of(
            token_program_id(),
        ) && resp.accounts@.len() == 3 && resp.accounts@[0].pubkey@ == b58_of(
            ata_of(b58_bytes_len(req.owner->0@, 32), b58_bytes_len(req.mint->0@, 32)),
        ) && !resp.accounts@[0].is_signer && resp.accounts@[1].pubkey@ == b58_of(
            ata_of(b58_bytes_len(req.destination->0@, 32), b58_bytes_len(req.mint->0@, 32)),
        ) && !resp.accounts@[1].is_signer && resp.accounts@[2].pubkey@ == req.owner->0@
            && resp.accounts@[2].is_signer && resp.instruction_data@ == b64_of(
            token_transfer_data(req.amount->0),
        )),
        r is Ok <==> send_token_ok(*req),
{
    let destination_text = match required_str(&req.destination) {
        Ok(s) => s,
        Err(e) => return Err(e),
    };
    let mint_text = match required_str(&req.mint) {
        Ok(s) => s,
        Err(e) => return Err(e),
    };
    let owner_text = match required_str(&req.owner) {
        Ok(s) => s,
        Err(e) => return Err(e),
    };
    let amount = match required_u64(&req.amount) {
        Ok(v) => v,
        Err(e) => return Err(e),
    };
    let destination_addr = match decode_address(destination_text.as_str()) {
        Ok(a) => a,
        Err(_) => return Err(
            SolanaError::InvalidInput(String::from_str("Invalid destination wallet address")),
        ),
    };
    let mint_addr = match decode_address(mint_text.as_str()) {
        Ok(a) => a,
        Err(_) => return Err(SolanaError::InvalidInput(String::from_str("Invalid mint address"))),
    };
    let owner_addr = match decode_address(owner_text.as_str()) {
        Ok(a) => a,
        Err(_) => return Err(SolanaError::InvalidInput(String::from_str("Invalid owner address"))),
    };
    if amount == 0 {
        return Err(SolanaError::InvalidInput(String::from_str("Amount must be greater than 0")));
    }
    if amount > u64::MAX / 2 {
        return Err(SolanaError::InvalidInput(String::from_str("Token amount is too large")));
    }
    if owner_addr.same_as(&destination_addr) {
        return Err(
            SolanaError::InvalidInput(
                String::from_str("Token owner and destination cannot be the same"),
            ),
        );
    }
    let ins = build_token_transfer(&owner_addr, &destination_addr, &mint_addr, amount);
    let mut accounts: Vec<AccountMetaTokenResponse> = Vec::new();
    let n = ins.accounts.len();
    let mut i: usize = 0;
    while i < n
        invariant
            n == ins.accounts@.len(),
            i <= n,
            accounts@.len() == i,
            forall|k: int| 0 <= k < ins.accounts@.len() ==> (#[trigger] ins.accounts@[k]).wf(),
            forall|k: int|
                0 <= k < i ==> (#[trigger] accounts@[k]).pubkey@ == b58_of(
                    ins.accounts@[k].address@,
                ) && accounts@[k].is_signer == ins.accounts@[k].is_signer,
        decreases n - i,
    {
        let entry = AccountMetaTokenResponse {
            pubkey: encode_address(&ins.accounts[i].address),
            is_signer: ins.accounts[i].is_signer,
        };
        accounts.push(entry);
        i += 1;
    }
    let data_text = encode_base64(&ins.data);
    Ok(
        SendTokenResponse {
            program_id: encode_address(&ins.program),
            accounts,
            instruction_data: data_text,
        },
    )
}

} // verus!
