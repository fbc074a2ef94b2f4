use vstd::prelude::*;

verus! {

/// Failure taxonomy of the service. Callers branch on the variant; the
/// detail string only feeds the wire message.
#[derive(Debug)]
pub enum SolanaError {
    /// A required field is absent, null, empty, or whitespace-only.
    MissingFields,
    /// A present field fails a format or range check; the detail names it.
    InvalidInput(String),
    /// A funded transfer asks for more lamports than the account holds.
    InsufficientFunds,
    /// The token program rejected the requested instruction.
    TokenError(String),
    /// A submitted transaction could not be confirmed.
    TransactionFailed(String),
    /// The ledger client failed; the detail is carried through opaquely.
    ClientError(String),
}

impl SolanaError {
    /// HTTP status of the error: 502 when the ledger client is at fault,
    /// 400 for everything the request itself caused.
    pub open spec fn spec_status_code(&self) -> u16 {
        if self is ClientError {
            502
        } else {
            400
        }
    }

    pub fn status_code(&self) -> (code: u16)
        ensures
            code == self.spec_status_code(),
    {
        match self {
            SolanaError::ClientError(_) => 502,
            _ => 400,
        }
    }

    /// The message carried in the failure envelope.
    pub open spec fn spec_message(&self) -> Seq<char> {
        match self {
            SolanaError::MissingFields => "Missing required fields"@,
            SolanaError::InvalidInput(d) => "Invalid input: "@ + d@,
            SolanaError::InsufficientFunds => "Insufficient funds"@,
            SolanaError::TokenError(d) => "Token error: "@ + d@,
            SolanaError::TransactionFailed(d) => "Transaction failed: "@ + d@,
            SolanaError::ClientError(d) => "Client error: "@ + d@,
        }
    }

    pub fn message(&self) -> (m: String)
        ensures
            m@ == self.spec_message(),
    {
        match self {
            SolanaError::MissingFields => String::from_str("Missing required fields"),
            SolanaError::InvalidInput(d) => String::from_str("Invalid input: ").concat(d.as_str()),
            SolanaError::InsufficientFunds => String::from_str("Insufficient funds"),
            SolanaError::TokenError(d) => String::from_str("Token error: ").concat(d.as_str()),
            SolanaError::TransactionFailed(d) => String::from_str("Transaction failed: ").concat(
                d.as_str(),
            ),
            SolanaError::ClientError(d) => String::from_str("Client error: ").concat(d.as_str()),
        }
    }
}

} // verus!
