use vstd::prelude::*;

verus! {

use crate::codec::Address;

/// The associated token account address for an owner and a mint, as the
/// token-association standard derives it: a program-derived address over
/// fixed program constants, the owner bytes, the token-program bytes and
/// the mint bytes.  A pure function of the two addresses.
pub uninterp spec fn ata_of(owner: Seq<u8>, mint: Seq<u8>) -> Seq<u8>;

/// Relies on `spl_associated_token_account::get_associated_token_address`:
/// deterministic derivation from the owner and mint alone; the result is a
/// 32-byte address.
#[verifier::external_body]
fn derive_ata_raw(owner: &Vec<u8>, mint: &Vec<u8>) -> (r: Vec<u8>)
    requires
        owner@.len() == 32,
        mint@.len() == 32,
    ensures
        r@ == ata_of(owner@, mint@),
        r@.len() == 32,
{
    let o = spl_token::solana_program::pubkey::Pubkey::new_from_array(
        owner.as_slice().try_into().unwrap(),
    );
    let m = spl_token::solana_program::pubkey::Pubkey::new_from_array(
        mint.as_slice().try_into().unwrap(),
    );
    spl_associated_token_account::get_associated_token_address(&o, &m).to_bytes().to_vec()
}

/// Derive the associated account address holding `mint` assets for `owner`.
/// Pure and deterministic; no on-chain lookup is made or needed.
pub fn derive_associated_address(owner: &Address, mint: &Address) -> (r: Address)
    requires
        owner.wf(),
        mint.wf(),
    ensures
        r.wf(),
        r@ == ata_of(owner@, mint@),
{
    Address::from_bytes_exact(derive_ata_raw(owner.bytes(), mint.bytes()))
}

/// Law: derivation depends on the inputs alone; two derivations from equal
/// addresses agree.
pub fn derivation_deterministic(owner: &Address, mint: &Address) -> (ok: bool)
    requires
        owner.wf(),
        mint.wf(),
    ensures
        ok,
{
    let first = derive_associated_address(owner, mint);
    let second = derive_associated_address(owner, mint);
    first.same_as(&second)
}

} // verus!
