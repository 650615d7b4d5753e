//! Errors of the marketplace's outbound ports: the repository and the
//! payment gateway, with the messages they are shown with.
use vstd::prelude::*;
use vstd::string::*;

verus! {

/// Repository errors.
#[derive(Debug, Clone)]
pub enum RepositoryError {
    NotFound,
    AlreadyExists,
    DatabaseError(String),
    SerializationError(String),
}

/// The message of a repository error.
pub open spec fn repository_error_text(e: RepositoryError) -> Seq<char> {
    match e {
        RepositoryError::NotFound => "Entity not found"@,
        RepositoryError::AlreadyExists => "Entity already exists"@,
        RepositoryError::DatabaseError(m) => "Database error: "@ + m@,
        RepositoryError::SerializationError(m) => "Serialization error: "@ + m@,
    }
}

impl RepositoryError {
    /// The error's message.
    pub fn to_string(&self) -> (r: String)
        ensures
            r@ == repository_error_text(*self),
    {
        match self {
            RepositoryError::NotFound => String::from_str("Entity not found"),
            RepositoryError::AlreadyExists => String::from_str("Entity already exists"),
            RepositoryError::DatabaseError(m) => String::from_str("Database error: ").concat(
                m.as_str(),
            ),
            RepositoryError::SerializationError(m) => String::from_str(
                "Serialization error: ",
            ).concat(m.as_str()),
        }
    }
}

/// Payment gateway errors.
#[derive(Debug, Clone)]
pub enum PayoutGatewayError {
    InvalidRecipient(String),
    InsufficientFunds,
    PaymentFailed(String),
    NetworkError(String),
}

/// The message of a payment gateway error.
pub open spec fn gateway_error_text(e: PayoutGatewayError) -> Seq<char> {
    match e {
        PayoutGatewayError::InvalidRecipient(m) => "Invalid recipient: "@ + m@,
        PayoutGatewayError::InsufficientFunds => "Insufficient funds"@,
        PayoutGatewayError::PaymentFailed(m) => "Payment failed: "@ + m@,
        PayoutGatewayError::NetworkError(m) => "Network error: "@ + m@,
    }
}

impl PayoutGatewayError {
    /// The error's message.
    pub fn to_string(&self) -> (r: String)
        ensures
            r@ == gateway_error_text(*self),
    {
        match self {
            PayoutGatewayError::InvalidRecipient(m) => String::from_str(
                "Invalid recipient: ",
            ).concat(m.as_str()),
            PayoutGatewayError::InsufficientFunds => String::from_str("Insufficient funds"),
            PayoutGatewayError::PaymentFailed(m) => String::from_str("Payment failed: ").concat(
                m.as_str(),
            ),
            PayoutGatewayError::NetworkError(m) => String::from_str("Network error: ").concat(
                m.as_str(),
            ),
        }
    }
}

} // verus!
