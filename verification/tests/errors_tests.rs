use solana_server::errors::SolanaError;

#[test]
fn status_codes_split_client_faults_from_request_faults() {
    assert_eq!(SolanaError::MissingFields.status_code(), 400);
    assert_eq!(SolanaError::InvalidInput("x".to_string()).status_code(), 400);
    assert_eq!(SolanaError::InsufficientFunds.status_code(), 400);
    assert_eq!(SolanaError::TokenError("x".to_string()).status_code(), 400);
    assert_eq!(SolanaError::TransactionFailed("x".to_string()).status_code(), 400);
    assert_eq!(SolanaError::ClientError("x".to_string()).status_code(), 502);
}

#[test]
fn messages_carry_the_detail() {
    assert_eq!(SolanaError::MissingFields.message(), "Missing required fields");
    assert_eq!(
        SolanaError::InvalidInput("bad field".to_string()).message(),
        "Invalid input: bad field"
    );
    assert_eq!(SolanaError::InsufficientFunds.message(), "Insufficient funds");
    assert_eq!(SolanaError::TokenError("t".to_string()).message(), "Token error: t");
    assert_eq!(
        SolanaError::TransactionFailed("boom".to_string()).message(),
        "Transaction failed: boom"
    );
    assert_eq!(
        SolanaError::ClientError("offline".to_string()).message(),
        "Client error: offline"
    );
}
