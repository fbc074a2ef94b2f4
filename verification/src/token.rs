use vstd::prelude::*;

verus! {

use crate::codec::{b58_of, b58_bytes_len, b64_of, decode_address, encode_address, encode_base64,
    valid_b58_len};
use crate::derivation::ata_of;
use crate::errors::SolanaError;
use crate::instruction::{
    build_initialize_mint, build_mint_to, initialize_mint_data, mint_to_data, rent_sysvar_id,
    token_program_id, Instruction,
};
use crate::validate::{required_str, required_u64, required_u8, str_missing};

// ---------------------------------------------------------------------------
// Token-program instruction construction: mint initialization and minting.
//
// Both endpoints are pure: no on-chain lookup blocks construction.  Any
// advisory account checks belong to the calling layer and must never stop
// an instruction from being built.
// ---------------------------------------------------------------------------

/// The largest accepted decimals value for a mint.
pub const MAX_DECIMALS: u8 = 9;

#[derive(Debug)]
pub struct CreateTokenRequest {
    pub mint_authority: Option<String>,
    pub mint: Option<String>,
    pub decimals: Option<u8>,
}

#[derive(Debug)]
pub struct MintTokenRequest {
    pub mint: Option<String>,
    pub destination: Option<String>,
    pub authority: Option<String>,
    pub amount: Option<u64>,
}

#[derive(Debug)]
pub struct AccountMetaResponse {
    pub pubkey: String,
    pub is_signer: bool,
    pub is_writable: bool,
}

#[derive(Debug)]
pub struct InstructionResponse {
    pub program_id: String,
    pub accounts: Vec<AccountMetaResponse>,
    pub instruction_data: String,
}

/// Render an instruction in its wire shape: base-58 addresses, base-64 data.
fn to_instruction_response(ins: &Instruction) -> (r: InstructionResponse)
    requires
        ins.wf(),
    ensures
        r.program_id@ == b58_of(ins.program@),
        r.accounts@.len() == ins.accounts@.len(),
        forall|i: int|
            0 <= i < r.accounts@.len() ==> (#[trigger] r.accounts@[i]).pubkey@ == b58_of(
                ins.accounts@[i].address@,
            ) && r.accounts@[i].is_signer == ins.accounts@[i].is_signer
                && r.accounts@[i].is_writable == ins.accounts@[i].is_writable,
        r.instruction_data@ == b64_of(ins.data@),
{
    let mut accounts: Vec<AccountMetaResponse> = Vec::new();
    let n = ins.accounts.len();
    let mut i: usize = 0;
    while i < n
        invariant
            n == ins.accounts@.len(),
            i <= n,
            accounts@.len() == i,
            forall|k: int| 0 <= k < ins.accounts@.len() ==> (#[trigger] ins.accounts@[k]).wf(),
            forall|k: int|
                0 <= k < i ==> (#[trigger] accounts@[k]).pubkey@ == b58_of(
                    ins.accounts@[k].address@,
                ) && accounts@[k].is_signer == ins.accounts@[k].is_signer
                    && accounts@[k].is_writable == ins.accounts@[k].is_writable,
        decreases n - i,
    {
        let entry = AccountMetaResponse {
            pubkey: encode_address(&ins.accounts[i].address),
            is_signer: ins.accounts[i].is_signer,
            is_writable: ins.accounts[i].is_writable,
        };
        accounts.push(entry);
        i += 1;
    }
    InstructionResponse {
        program_id: encode_address(&ins.program),
        accounts,
        instruction_data: encode_base64(&ins.data),
    }
}

/// A required field of the mint-creation request is absent or blank.
pub open spec fn create_token_missing(req: CreateTokenRequest) -> bool {
    str_missing(req.mint_authority) || str_missing(req.mint) || req.decimals is None
}

/// Both addresses of the mint-creation request decode to 32 bytes.
pub open spec fn create_token_formats_ok(req: CreateTokenRequest) -> bool {
    valid_b58_len(req.mint_authority->0@, 32) && valid_b58_len(req.mint->0@, 32)
}

/// Every check of the mint-creation request passes.
pub open spec fn create_token_ok(req: CreateTokenRequest) -> bool {
    &&& !create_token_missing(req)
    &&& create_token_formats_ok(req)
    &&& req.decimals->0 <= MAX_DECIMALS
    &&& req.mint->0@ != req.mint_authority->0@
}

/// Construct a mint-initialization instruction from the raw request.
///
/// Presence is checked first, then the two address formats, then the
/// decimals range, then that mint and authority differ.  The freeze
/// authority defaults to the mint authority.
pub fn process_create_token(req: &CreateTokenRequest) -> (r: Result<
    InstructionResponse,
    SolanaError,
>)
    ensures
        create_token_missing(*req) ==> (r matches Err(e) && e is MissingFields),
        !create_token_missing(*req) && !valid_b58_len(req.mint_authority->0@, 32) ==> (
        r matches Err(e) && e matches SolanaError::InvalidInput(m) && m@
            == "Invalid mint authority public key"@),
        !create_token_missing(*req) && valid_b58_len(req.mint_authority->0@, 32) && !valid_b58_len(
            req.mint->0@,
            32,
        ) ==> (r matches Err(e) && e matches SolanaError::InvalidInput(m) && m@
            == "Invalid mint public key"@),
        !create_token_missing(*req) && create_token_formats_ok(*req) && req.decimals->0
            > MAX_DECIMALS ==> (r matches Err(e) && e matches SolanaError::InvalidInput(m) && m@
            == "Decimals must be between 0 and 9"@),
        !create_token_missing(*req) && create_token_formats_ok(*req) && req.decimals->0
            <= MAX_DECIMALS && req.mint->0@ == req.mint_authority->0@ ==> (r matches Err(e)
            && e matches SolanaError::InvalidInput(m) && m@
            == "Mint account and mint authority cannot be the same"@),
        create_token_ok(*req) ==> (r matches Ok(resp) && resp.program_id@ == b58_of(
            token_program_id(),
        ) && resp.accounts@.len() == 2 && resp.accounts@[0].pubkey@ == req.mint->0@
            && !resp.accounts@[0].is_signer && resp.accounts@[0].is_writable
            && resp.accounts@[1].pubkey@ == b58_of(rent_sysvar_id())
            && !resp.accounts@[1].is_signer && !resp.accounts@[1].is_writable
            && resp.instruction_data@ == b64_of(
            initialize_mint_data(
                req.decimals->0,
                b58_bytes_len(req.mint_authority->0@, 32),
                b58_bytes_len(req.mint_authority->0@, 32),
            ),
        )),
        r is Ok <==> create_token_ok(*req),
{
    let authority_text = match required_str(&req.mint_authority) {
        Ok(s) => s,
        Err(e) => return Err(e),
    };
    let mint_text = match required_str(&req.mint) {
        Ok(s) => s,
        Err(e) => return Err(e),
    };
    let decimals = match required_u8(&req.decimals) {
        Ok(v) => v,
        Err(e) => return Err(e),
    };
    let authority_addr = match decode_address(authority_text.as_str()) {
        Ok(a) => a,
        Err(_) => return Err(
            SolanaError::InvalidInput(String::from_str("Invalid mint authority public key")),
        ),
    };
    let mint_addr = match decode_address(mint_text.as_str()) {
        Ok(a) => a,
        Err(_) => return Err(
            SolanaError::InvalidInput(String::from_str("Invalid mint public key")),
        ),
    };
    if decimals > MAX_DECIMALS {
        return Err(
            SolanaError::InvalidInput(String::from_str("Decimals must be between 0 and 9")),
        );
    }
    if mint_addr.same_as(&authority_addr) {
        return Err(
            SolanaError::InvalidInput(
                String::from_str("Mint account and mint authority cannot be the same"),
            ),
        );
    }
    let ins = build_initialize_mint(&mint_addr, &authority_addr, decimals);
    Ok(to_instruction_response(&ins))
}

/// A required field of the mint-to request is absent or blank.
pub open spec fn mint_token_missing(req: MintTokenRequest) -> bool {
    str_missing(req.mint) || str_missing(req.destination) || str_missing(req.authority)
        || req.amount is None
}

/// All three addresses of the mint-to request decode to 32 bytes.
pub open spec fn mint_token_formats_ok(req: MintTokenRequest) -> bool {
    valid_b58_len(req.mint->0@, 32) && valid_b58_len(req.destination->0@, 32) && valid_b58_len(
        req.authority->0@,
        32,
    )
}

/// Every check of the mint-to request passes.
pub open spec fn mint_token_ok(req: MintTokenRequest) -> bool {
    &&& !mint_token_missing(req)
    &&& mint_token_formats_ok(req)
    &&& req.amount->0 > 0
}

/// Construct a mint-to instruction from the raw request.
///
/// Presence is checked first, then the three address formats, then the
/// amount range.  Construction never waits on chain state: whether the
/// mint or any token account exists is advisory information for the
/// calling layer and never blocks the instruction.
pub fn process_mint_token(req: &MintTokenRequest) -> (r: Result<InstructionResponse, SolanaError>)
    ensures
        mint_token_missing(*req) ==> (r matches Err(e) && e is MissingFields),
        !mint_token_missing(*req) && !valid_b58_len(req.mint->0@, 32) ==> (r matches Err(e)
            && e matches SolanaError::InvalidInput(m) && m@ == "Invalid mint address"@),
        !mint_token_missing(*req) && valid_b58_len(req.mint->0@, 32) && !valid_b58_len(
            req.destination->0@,
            32,
        ) ==> (r matches Err(e) && e matches SolanaError::InvalidInput(m) && m@
            == "Invalid destination wallet address"@),
        !mint_token_missing(*req) && valid_b58_len(req.mint->0@, 32) && valid_b58_len(
            req.destination->0@,
            32,
        ) && !valid_b58_len(req.authority->0@, 32) ==> (r matches Err(e)
            && e matches SolanaError::InvalidInput(m) && m@ == "Invalid authority address"@),
        !mint_token_missing(*req) && mint_token_formats_ok(*req) && req.amount->0 == 0 ==> (
        r matches Err(e) && e matches SolanaError::InvalidInput(m) && m@
            == "Amount must be greater than 0"@),
        mint_token_ok(*req) ==> (r matches Ok(resp) && resp.program_id@ == b58_of(
            token_program_id(),
        ) && resp.accounts@.len() == 3 && resp.accounts@[0].pubkey@ == req.mint->0@
            && !resp.accounts@[0].is_signer && resp.accounts@[0].is_writable
            && resp.accounts@[1].pubkey@ == b58_of(
            ata_of(b58_bytes_len(req.destination->0@, 32), b58_bytes_len(req.mint->0@, 32)),
        ) && !resp.accounts@[1].is_signer && resp.accounts@[1].is_writable
            && resp.accounts@[2].pubkey@ == req.authority->0@ && resp.accounts@[2].is_signer
            && !resp.accounts@[2].is_writable && resp.instruction_data@ == b64_of(
            mint_to_data(req.amount->0),
        )),
        r is Ok <==> mint_token_ok(*req),
{
    let mint_text = match required_str(&req.mint) {
        Ok(s) => s,
        Err(e) => return Err(e),
    };
    let destination_text = match required_str(&req.destination) {
        Ok(s) => s,
        Err(e) => return Err(e),
    };
    let authority_text = match required_str(&req.authority) {
        Ok(s) => s,
        Err(e) => return Err(e),
    };
    let amount = match required_u64(&req.amount) {
        Ok(v) => v,
        Err(e) => return Err(e),
    };
    let mint_addr = match decode_address(mint_text.as_str()) {
        Ok(a) => a,
        Err(_) => return Err(SolanaError::InvalidInput(String::from_str("Invalid mint address"))),
    };
    let destination_addr = match decode_address(destination_text.as_str()) {
        Ok(a) => a,
        Err(_) => return Err(
            SolanaError::InvalidInput(String::from_str("Invalid destination wallet address")),
        ),
    };
    let authority_addr = match decode_address(authority_text.as_str()) {
        Ok(a) => a,
        Err(_) => return Err(
            SolanaError::InvalidInput(String::from_str("Invalid authority address")),
        ),
    };
    if amount == 0 {
        return Err(SolanaError::InvalidInput(String::from_str("Amount must be greater than 0")));
    }
    let ins = build_mint_to(&mint_addr, &destination_addr, &authority_addr, amount);
    Ok(to_instruction_response(&ins))
}

} // verus!
