use vstd::prelude::*;

verus! {

use vstd::bytes::spec_u64_to_le_bytes;
use crate::codec::Address;
use crate::derivation::{ata_of, derive_associated_address};

// ---------------------------------------------------------------------------
// Instruction building.
//
// Every instruction of the closed set is a pure function of its validated
// fields: a target program address, an ordered account list with signer and
// writable flags, and an opaque data blob.  The byte layouts below must be
// exactly the ones the ledger's native programs expect; the wrappers state
// them as the program crates' sources show them.
// ---------------------------------------------------------------------------

/// The native system program: the all-zero 32-byte address.
pub open spec fn system_program_id() -> Seq<u8> {
    Seq::new(32, |i: int| 0u8)
}

/// The token program's 32-byte address.
pub open spec fn token_program_id() -> Seq<u8> {
    seq![
        6u8, 221u8, 246u8, 225u8, 215u8, 101u8, 161u8, 147u8, 217u8, 203u8, 225u8, 70u8, 206u8,
        235u8, 121u8, 172u8, 28u8, 180u8, 133u8, 237u8, 95u8, 91u8, 55u8, 145u8, 58u8, 140u8,
        245u8, 133u8, 126u8, 255u8, 0u8, 169u8,
    ]
}

/// The rent sysvar's 32-byte address.
pub open spec fn rent_sysvar_id() -> Seq<u8> {
    seq![
        6u8, 167u8, 213u8, 23u8, 25u8, 44u8, 92u8, 81u8, 33u8, 140u8, 201u8, 76u8, 61u8, 74u8,
        241u8, 127u8, 88u8, 218u8, 238u8, 8u8, 155u8, 161u8, 253u8, 68u8, 227u8, 219u8, 217u8,
        138u8, 0u8, 0u8, 0u8, 0u8,
    ]
}

/// Data of a native transfer: the transfer variant tag (2, four bytes
/// little-endian) then the lamports, little-endian.
pub open spec fn native_transfer_data(lamports: u64) -> Seq<u8> {
    seq![2u8, 0u8, 0u8, 0u8] + spec_u64_to_le_bytes(lamports)
}

/// Data of a token transfer: tag 3, then the amount little-endian.
pub open spec fn token_transfer_data(amount: u64) -> Seq<u8> {
    seq![3u8] + spec_u64_to_le_bytes(amount)
}

/// Data of a mint-to: tag 7, then the amount little-endian.
pub open spec fn mint_to_data(amount: u64) -> Seq<u8> {
    seq![7u8] + spec_u64_to_le_bytes(amount)
}

/// Data of a mint initialization: tag 0, the decimals, the mint authority,
/// then the freeze authority behind a presence flag.
pub open spec fn initialize_mint_data(
    decimals: u8,
    authority: Seq<u8>,
    freeze_authority: Seq<u8>,
) -> Seq<u8> {
    seq![0u8, decimals] + authority + seq![1u8] + freeze_authority
}

/// One account reference of an instruction.
#[derive(Debug)]
pub struct AccountRef {
    pub address: Address,
    pub is_signer: bool,
    pub is_writable: bool,
}

impl AccountRef {
    pub open spec fn wf(&self) -> bool {
        self.address.wf()
    }
}

/// An unsigned unit of work for the ledger's runtime: target program,
/// ordered account list, opaque data.  Immutable once built.
#[derive(Debug)]
pub struct Instruction {
    pub program: Address,
    pub accounts: Vec<AccountRef>,
    pub data: Vec<u8>,
}

impl Instruction {
    pub open spec fn wf(&self) -> bool {
        self.program.wf() && forall|i: int|
            0 <= i < self.accounts@.len() ==> self.accounts@[i].wf()
    }
}

/// Relies on `solana_system_interface::instruction::transfer`: the system
/// program id, the funding account as a writable signer, the recipient as
/// writable, and the bincode encoding of the transfer variant (tag 2 as
/// four little-endian bytes, then the lamports little-endian).
#[verifier::external_body]
fn system_transfer_raw(from: &Vec<u8>, to: &Vec<u8>, lamports: u64) -> (r: (
    Vec<u8>,
    Vec<(Vec<u8>, bool, bool)>,
    Vec<u8>,
))
    requires
        from@.len() == 32,
        to@.len() == 32,
    ensures
        r.0@ == system_program_id(),
        r.1@.len() == 2,
        r.1@[0].0@ == from@ && r.1@[0].1 == true && r.1@[0].2 == true,
        r.1@[1].0@ == to@ && r.1@[1].1 == false && r.1@[1].2 == true,
        r.2@ == native_transfer_data(lamports),
{
    let f = solana_sdk::pubkey::Pubkey::new_from_array(from.as_slice().try_into().unwrap());
    let t = solana_sdk::pubkey::Pubkey::new_from_array(to.as_slice().try_into().unwrap());
    let ins = solana_system_interface::instruction::transfer(&f, &t, lamports);
    let metas: Vec<(Vec<u8>, bool, bool)> = ins.accounts.iter().map(
        |m| (m.pubkey.to_bytes().to_vec(), m.is_signer, m.is_writable),
    ).collect();
    (ins.program_id.to_bytes().to_vec(), metas, ins.data)
}

/// Relies on `spl_token::instruction::transfer`, called with the token
/// program's own id and no multisig signers: source and destination are
/// writable non-signers, the owner a read-only signer, and the data is tag
/// 3 then the amount little-endian.  Its only failure is a foreign program
/// id, which the body rules out.
#[verifier::external_body]
fn spl_transfer_raw(source: &Vec<u8>, destination: &Vec<u8>, owner: &Vec<u8>, amount: u64) -> (r: (
    Vec<u8>,
    Vec<(Vec<u8>, bool, bool)>,
    Vec<u8>,
))
    requires
        source@.len() == 32,
        destination@.len() == 32,
        owner@.len() == 32,
    ensures
        r.0@ == token_program_id(),
        r.1@.len() == 3,
        r.1@[0].0@ == source@ && r.1@[0].1 == false && r.1@[0].2 == true,
        r.1@[1].0@ == destination@ && r.1@[1].1 == false && r.1@[1].2 == true,
        r.1@[2].0@ == owner@ && r.1@[2].1 == true && r.1@[2].2 == false,
        r.2@ == token_transfer_data(amount),
{
    let s = spl_token::solana_program::pubkey::Pubkey::new_from_array(
        source.as_slice().try_into().unwrap(),
    );
    let d = spl_token::solana_program::pubkey::Pubkey::new_from_array(
        destination.as_slice().try_into().unwrap(),
    );
    let o = spl_token::solana_program::pubkey::Pubkey::new_from_array(
        owner.as_slice().try_into().unwrap(),
    );
    let ins = spl_token::instruction::transfer(&spl_token::id(), &s, &d, &o, &[], amount).unwrap();
    let metas: Vec<(Vec<u8>, bool, bool)> = ins.accounts.iter().map(
        |m| (m.pubkey.to_bytes().to_vec(), m.is_signer, m.is_writable),
    ).collect();
    (ins.program_id.to_bytes().to_vec(), metas, ins.data)
}

/// Relies on `spl_token::instruction::initialize_mint`, called with the
/// token program's own id and the freeze authority set to the mint
/// authority: the mint account writable, the rent sysvar read-only, and
/// the data is tag 0, the decimals, the authority, a presence flag, and
/// the freeze authority.  Its only failure is a foreign program id, which
/// the body rules out.
#[verifier::external_body]
fn spl_initialize_mint_raw(mint: &Vec<u8>, authority: &Vec<u8>, decimals: u8) -> (r: (
    Vec<u8>,
    Vec<(Vec<u8>, bool, bool)>,
    Vec<u8>,
))
    requires
        mint@.len() == 32,
        authority@.len() == 32,
    ensures
        r.0@ == token_program_id(),
        r.1@.len() == 2,
        r.1@[0].0@ == mint@ && r.1@[0].1 == false && r.1@[0].2 == true,
        r.1@[1].0@ == rent_sysvar_id() && r.1@[1].1 == false && r.1@[1].2 == false,
        r.2@ == initialize_mint_data(decimals, authority@, authority@),
{
    let m = spl_token::solana_program::pubkey::Pubkey::new_from_array(
        mint.as_slice().try_into().unwrap(),
    );
    let a = spl_token::solana_program::pubkey::Pubkey::new_from_array(
        authority.as_slice().try_into().unwrap(),
    );
    let ins = spl_token::instruction::initialize_mint(&spl_token::id(), &m, &a, Some(&a), decimals)
        .unwrap();
    let metas: Vec<(Vec<u8>, bool, bool)> = ins.accounts.iter().map(
        |meta| (meta.pubkey.to_bytes().to_vec(), meta.is_signer, meta.is_writable),
    ).collect();
    (ins.program_id.to_bytes().to_vec(), metas, ins.data)
}

/// Relies on `spl_token::instruction::mint_to`, called with the token
/// program's own id and no multisig signers: the mint and the destination
/// account writable, the authority a read-only signer, and the data is tag
/// 7 then the amount little-endian.  Its only failure is a foreign program
/// id, which the body rules out.
#[verifier::external_body]
fn spl_mint_to_raw(mint: &Vec<u8>, destination: &Vec<u8>, authority: &Vec<u8>, amount: u64) -> (r: (
    Vec<u8>,
    Vec<(Vec<u8>, bool, bool)>,
    Vec<u8>,
))
    requires
        mint@.len() == 32,
        destination@.len() == 32,
        authority@.len() == 32,
    ensures
        r.0@ == token_program_id(),
        r.1@.len() == 3,
        r.1@[0].0@ == mint@ && r.1@[0].1 == false && r.1@[0].2 == true,
        r.1@[1].0@ == destination@ && r.1@[1].1 == false && r.1@[1].2 == true,
        r.1@[2].0@ == authority@ && r.1@[2].1 == true && r.1@[2].2 == false,
        r.2@ == mint_to_data(amount),
{
    let m = spl_token::solana_program::pubkey::Pubkey::new_from_array(
        mint.as_slice().try_into().unwrap(),
    );
    let d = spl_token::solana_program::pubkey::Pubkey::new_from_array(
        destination.as_slice().try_into().unwrap(),
    );
    let a = spl_token::solana_program::pubkey::Pubkey::new_from_array(
        authority.as_slice().try_into().unwrap(),
    );
    let ins = spl_token::instruction::mint_to(&spl_token::id(), &m, &d, &a, &[], amount).unwrap();
    let metas: Vec<(Vec<u8>, bool, bool)> = ins.accounts.iter().map(
        |meta| (meta.pubkey.to_bytes().to_vec(), meta.is_signer, meta.is_writable),
    ).collect();
    (ins.program_id.to_bytes().to_vec(), metas, ins.data)
}

/// Turn one converted account triple into an account reference.
fn to_account_ref(meta: (Vec<u8>, bool, bool)) -> (r: AccountRef)
    requires
        meta.0@.len() == 32,
    ensures
        r.wf(),
        r.address@ == meta.0@,
        r.is_signer == meta.1,
        r.is_writable == meta.2,
{
    let (bytes, is_signer, is_writable) = meta;
    AccountRef { address: Address::from_bytes_exact(bytes), is_signer, is_writable }
}

/// Build a native transfer: move `lamports` from `from` to `to`.
pub fn build_native_transfer(from: &Address, to: &Address, lamports: u64) -> (r: Instruction)
    requires
        from.wf(),
        to.wf(),
    ensures
        r.wf(),
        r.program@ == system_program_id(),
        r.accounts@.len() == 2,
        r.accounts@[0].address@ == from@ && r.accounts@[0].is_signer && r.accounts@[0].is_writable,
        r.accounts@[1].address@ == to@ && !r.accounts@[1].is_signer && r.accounts@[1].is_writable,
        r.data@ == native_transfer_data(lamports),
{
    let (program, mut metas, data) = system_transfer_raw(from.bytes(), to.bytes(), lamports);
    let mut accounts: Vec<AccountRef> = Vec::new();
    accounts.push(to_account_ref(metas.remove(0)));
    accounts.push(to_account_ref(metas.remove(0)));
    Instruction { program: Address::from_bytes_exact(program), accounts, data }
}

/// Build a token transfer: move `amount` of `mint` assets from the owner's
/// associated account to the destination wallet's associated account.
pub fn build_token_transfer(
    owner: &Address,
    destination: &Address,
    mint: &Address,
    amount: u64,
) -> (r: Instruction)
    requires
        owner.wf(),
        destination.wf(),
        mint.wf(),
    ensures
        r.wf(),
        r.program@ == token_program_id(),
        r.accounts@.len() == 3,
        r.accounts@[0].address@ == ata_of(owner@, mint@) && !r.accounts@[0].is_signer
            && r.accounts@[0].is_writable,
        r.accounts@[1].address@ == ata_of(destination@, mint@) && !r.accounts@[1].is_signer
            && r.accounts@[1].is_writable,
        r.accounts@[2].address@ == owner@ && r.accounts@[2].is_signer
            && !r.accounts@[2].is_writable,
        r.data@ == token_transfer_data(amount),
{
    let source_ata = derive_associated_address(owner, mint);
    let destination_ata = derive_associated_address(destination, mint);
    let (program, mut metas, data) = spl_transfer_raw(
        source_ata.bytes(),
        destination_ata.bytes(),
        owner.bytes(),
        amount,
    );
    let mut accounts: Vec<AccountRef> = Vec::new();
    accounts.push(to_account_ref(metas.remove(0)));
    accounts.push(to_account_ref(metas.remove(0)));
    accounts.push(to_account_ref(metas.remove(0)));
    Instruction { program: Address::from_bytes_exact(program), accounts, data }
}

/// Build a mint initialization for `mint` with `authority` as both mint
/// and freeze authority.
pub fn build_initialize_mint(mint: &Address, authority: &Address, decimals: u8) -> (r: Instruction)
    requires
        mint.wf(),
        authority.wf(),
    ensures
        r.wf(),
        r.program@ == token_program_id(),
        r.accounts@.len() == 2,
        r.accounts@[0].address@ == mint@ && !r.accounts@[0].is_signer
            && r.accounts@[0].is_writable,
        r.accounts@[1].address@ == rent_sysvar_id() && !r.accounts@[1].is_signer
            && !r.accounts@[1].is_writable,
        r.data@ == initialize_mint_data(decimals, authority@, authority@),
{
    let (program, mut metas, data) = spl_initialize_mint_raw(
        mint.bytes(),
        authority.bytes(),
        decimals,
    );
    let mut accounts: Vec<AccountRef> = Vec::new();
    accounts.push(to_account_ref(metas.remove(0)));
    accounts.push(to_account_ref(metas.remove(0)));
    Instruction { program: Address::from_bytes_exact(program), accounts, data }
}

/// Build a mint-to: mint `amount` of `mint` assets into the destination
/// wallet's associated account, authorized by `authority`.
pub fn build_mint_to(
    mint: &Address,
    destination: &Address,
    authority: &Address,
    amount: u64,
) -> (r: Instruction)
    requires
        mint.wf(),
        destination.wf(),
        authority.wf(),
    ensures
        r.wf(),
        r.program@ == token_program_id(),
        r.accounts@.len() == 3,
        r.accounts@[0].address@ == mint@ && !r.accounts@[0].is_signer
            && r.accounts@[0].is_writable,
        r.accounts@[1].address@ == ata_of(destination@, mint@) && !r.accounts@[1].is_signer
            && r.accounts@[1].is_writable,
        r.accounts@[2].address@ == authority@ && r.accounts@[2].is_signer
            && !r.accounts@[2].is_writable,
        r.data@ == mint_to_data(amount),
{
    let destination_ata = derive_associated_address(destination, mint);
    let (program, mut metas, data) = spl_mint_to_raw(
        mint.bytes(),
        destination_ata.bytes(),
        authority.bytes(),
        amount,
    );
    let mut accounts: Vec<AccountRef> = Vec::new();
    accounts.push(to_account_ref(metas.remove(0)));
    accounts.push(to_account_ref(metas.remove(0)));
    accounts.push(to_account_ref(metas.remove(0)));
    Instruction { program: Address::from_bytes_exact(program), accounts, data }
}

} // verus!
