use solana_server::codec::encode_base58;
use solana_server::errors::SolanaError;
use solana_server::token::{
    process_create_token, process_mint_token, CreateTokenRequest, MintTokenRequest,
};

fn addr(byte: u8) -> String {
    encode_base58(&vec![byte; 32])
}

#[test]
fn create_token_scenario_with_decimals_nine() {
    let req = CreateTokenRequest {
        mint_authority: Some(addr(2)),
        mint: Some(addr(3)),
        decimals: Some(9),
    };
    let resp = process_create_token(&req).unwrap();
    assert_eq!(resp.program_id, "TokenkegQfeZyiNwAJbNbGKPFXCWuBvf9Ss623VQ5DA");
    assert_eq!(resp.accounts.len(), 2);
    assert_eq!(resp.accounts[0].pubkey, addr(3));
    assert!(!resp.accounts[0].is_signer);
    assert!(resp.accounts[0].is_writable);
    assert_eq!(resp.accounts[1].pubkey, "SysvarRent111111111111111111111111111111111");
    assert!(!resp.accounts[1].is_signer);
    assert!(!resp.accounts[1].is_writable);
    assert_eq!(
        resp.instruction_data,
        "AAkCAgICAgICAgICAgICAgICAgICAgICAgICAgICAgICAgECAgICAgICAgICAgICAgICAgICAgICAgICAgICAgICAg=="
    );
}

#[test]
fn create_token_decimals_ten_rejected() {
    let req = CreateTokenRequest {
        mint_authority: Some(addr(2)),
        mint: Some(addr(3)),
        decimals: Some(10),
    };
    match process_create_token(&req) {
        Err(SolanaError::InvalidInput(m)) => assert_eq!(m, "Decimals must be between 0 and 9"),
        other => panic!("unexpected: {:?}", other),
    }
}

#[test]
fn create_token_same_mint_and_authority_rejected() {
    let req = CreateTokenRequest {
        mint_authority: Some(addr(3)),
        mint: Some(addr(3)),
        decimals: Some(0),
    };
    match process_create_token(&req) {
        Err(SolanaError::InvalidInput(m)) => {
            assert_eq!(m, "Mint account and mint authority cannot be the same")
        }
        other => panic!("unexpected: {:?}", other),
    }
}

#[test]
fn create_token_missing_decimals_beats_bad_mint() {
    let req = CreateTokenRequest {
        mint_authority: Some(addr(2)),
        mint: Some("!!!".to_string()),
        decimals: None,
    };
    assert!(matches!(process_create_token(&req), Err(SolanaError::MissingFields)));
}

#[test]
fn create_token_invalid_authority_named_first() {
    let req = CreateTokenRequest {
        mint_authority: Some("0OIl".to_string()),
        mint: Some("0OIl".to_string()),
        decimals: Some(0),
    };
    match process_create_token(&req) {
        Err(SolanaError::InvalidInput(m)) => assert_eq!(m, "Invalid mint authority public key"),
        other => panic!("unexpected: {:?}", other),
    }
}

#[test]
fn mint_token_scenario() {
    let mint_pk = spl_token::solana_program::pubkey::Pubkey::new_from_array([3u8; 32]);
    let dest_pk = spl_token::solana_program::pubkey::Pubkey::new_from_array([2u8; 32]);
    let dest_ata = spl_associated_token_account::get_associated_token_address(&dest_pk, &mint_pk);

    let req = MintTokenRequest {
        mint: Some(addr(3)),
        destination: Some(addr(2)),
        authority: Some(addr(1)),
        amount: Some(7),
    };
    let resp = process_mint_token(&req).unwrap();
    assert_eq!(resp.program_id, "TokenkegQfeZyiNwAJbNbGKPFXCWuBvf9Ss623VQ5DA");
    assert_eq!(resp.accounts.len(), 3);
    assert_eq!(resp.accounts[0].pubkey, addr(3));
    assert!(!resp.accounts[0].is_signer);
    assert!(resp.accounts[0].is_writable);
    assert_eq!(resp.accounts[1].pubkey, dest_ata.to_string());
    assert!(!resp.accounts[1].is_signer);
    assert!(resp.accounts[1].is_writable);
    assert_eq!(resp.accounts[2].pubkey, addr(1));
    assert!(resp.accounts[2].is_signer);
    assert!(!resp.accounts[2].is_writable);
    assert_eq!(resp.instruction_data, "BwcAAAAAAAAA");
}

#[test]
fn mint_token_zero_amount_rejected() {
    let req = MintTokenRequest {
        mint: Some(addr(3)),
        destination: Some(addr(2)),
        authority: Some(addr(1)),
        amount: Some(0),
    };
    match process_mint_token(&req) {
        Err(SolanaError::InvalidInput(m)) => assert_eq!(m, "Amount must be greater than 0"),
        other => panic!("unexpected: {:?}", other),
    }
}

#[test]
fn mint_token_invalid_mint_named_first() {
    let req = MintTokenRequest {
        mint: Some("zz!!".to_string()),
        destination: Some("zz!!".to_string()),
        authority: Some(addr(1)),
        amount: Some(7),
    };
    match process_mint_token(&req) {
        Err(SolanaError::InvalidInput(m)) => assert_eq!(m, "Invalid mint address"),
        other => panic!("unexpected: {:?}", other),
    }
}

#[test]
fn mint_token_missing_field_beats_invalid_format() {
    let req = MintTokenRequest {
        mint: Some("zz!!".to_string()),
        destination: None,
        authority: Some(addr(1)),
        amount: Some(7),
    };
    assert!(matches!(process_mint_token(&req), Err(SolanaError::MissingFields)));
}
