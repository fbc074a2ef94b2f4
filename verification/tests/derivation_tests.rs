use solana_server::codec::{encode_address, Address};
use solana_server::derivation::{derivation_deterministic, derive_associated_address};

fn address(byte: u8) -> Address {
    Address::from_bytes(vec![byte; 32]).unwrap()
}

#[test]
fn derivation_matches_the_token_association_standard() {
    let owner = address(1);
    let mint = address(3);
    let derived = derive_associated_address(&owner, &mint);

    let owner_pk = spl_token::solana_program::pubkey::Pubkey::new_from_array([1u8; 32]);
    let mint_pk = spl_token::solana_program::pubkey::Pubkey::new_from_array([3u8; 32]);
    let expected =
        spl_associated_token_account::get_associated_token_address(&owner_pk, &mint_pk);
    assert_eq!(encode_address(&derived), expected.to_string());
}

#[test]
fn derivation_is_deterministic() {
    let owner = address(1);
    let mint = address(3);
    assert!(derivation_deterministic(&owner, &mint));
    let first = derive_associated_address(&owner, &mint);
    let second = derive_associated_address(&owner, &mint);
    assert_eq!(first.bytes(), second.bytes());
}

#[test]
fn derivation_differs_when_either_input_changes() {
    let base = derive_associated_address(&address(1), &address(3));
    let other_owner = derive_associated_address(&address(2), &address(3));
    let other_mint = derive_associated_address(&address(1), &address(4));
    assert_ne!(base.bytes(), other_owner.bytes());
    assert_ne!(base.bytes(), other_mint.bytes());
}
