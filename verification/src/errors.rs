//! The service's errors.

use vstd::prelude::*;
use crate::models::WsMessage;
use crate::program::errors::VaultError;
use crate::pubkey::ParsePubkeyError;
use crate::text::{decimal, decimal_text};

verus! {

/// Why the service refused a request or could not serve it.
#[derive(Debug, Clone, PartialEq, Eq)]
pub enum VaultServiceError {
    /// The store failed.
    DatabaseError(String),
    /// The settlement network's client failed.
    SolanaClientError(String),
    /// The settlement program refused an instruction.
    SolanaProgramError(String),
    AnchorError(String),
    /// A text is not a public key.
    InvalidPublicKey(ParsePubkeyError),
    SerializationError(String),
    BsonError(String),
    /// No vault is stored under this address or owner.
    VaultNotFound(String),
    /// A withdrawal asks for more than is available: what is available, then
    /// what was asked for.
    InsufficientBalance(u64, u64),
    TransactionFailed(String),
    ConfigError(String),
    /// The amount is not positive.
    InvalidAmount(String),
    Unauthorized,
    InternalError(String),
    WebSocketError(String),
    IoError(String),
    /// A lock asks for more than is available.
    InsufficientBalanceToLock,
    /// An unlock asks for more than is locked.
    InvalidUnlockAmount,
    /// A transfer asks for more than the source's total.
    InsufficientTransferBalance,
    /// An addition would exceed the 64-bit range.
    ArithmeticOverflow,
    /// A subtraction would go below zero.
    ArithmeticUnderflow,
    /// The computed state would break `total == locked + available`.
    InvariantViolation,
}

/// What an `InvalidAmount` says of an amount of zero.
pub open spec fn zero_amount_text() -> Seq<char> {
    "amount must be greater than zero"@
}

/// The error for an amount of zero.
pub fn zero_amount() -> (e: VaultServiceError)
    ensures
        e.reports(VaultError::InvalidAmount, 0, 0),
{
    VaultServiceError::InvalidAmount(String::from_str("amount must be greater than zero"))
}

/// Accepts an amount that an operation can move: any but zero. This is the
/// one test that needs no vault, so it can be made before the store is asked
/// for one.
pub fn validate_amount(amount: u64) -> (r: Result<(), VaultServiceError>)
    ensures
        amount > 0 ==> r is Ok,
        amount == 0 ==> (r matches Err(e) && e.reports(VaultError::InvalidAmount, 0, 0)),
{
    if amount == 0 {
        Err(zero_amount())
    } else {
        Ok(())
    }
}

impl VaultServiceError {
    /// `self` is the service's error for a fault of the accounting model, in
    /// an operation that asked for `requested` of a vault with `available`
    /// available.
    pub open spec fn reports(self, fault: VaultError, available: u64, requested: u64) -> bool {
        match fault {
            VaultError::InvalidAmount => self matches VaultServiceError::InvalidAmount(text)
                && text@ == zero_amount_text(),
            VaultError::InsufficientBalance => self == VaultServiceError::InsufficientBalance(
                available,
                requested,
            ),
            VaultError::InsufficientBalanceToLock => self
                == VaultServiceError::InsufficientBalanceToLock,
            VaultError::InvalidUnlockAmount => self == VaultServiceError::InvalidUnlockAmount,
            VaultError::InsufficientTransferBalance => self
                == VaultServiceError::InsufficientTransferBalance,
            VaultError::ArithmeticOverflow => self == VaultServiceError::ArithmeticOverflow,
            VaultError::ArithmeticUnderflow => self == VaultServiceError::ArithmeticUnderflow,
            VaultError::InvariantViolation => self == VaultServiceError::InvariantViolation,
            _ => false,
        }
    }

    /// The HTTP status that answers a request refused with this error.
    pub open spec fn status_of(self) -> u16 {
        match self {
            VaultServiceError::VaultNotFound(_) => 404,
            VaultServiceError::InsufficientBalance(_, _) => 400,
            VaultServiceError::InvalidAmount(_) => 400,
            VaultServiceError::InsufficientBalanceToLock => 400,
            VaultServiceError::InvalidUnlockAmount => 400,
            VaultServiceError::InsufficientTransferBalance => 400,
            VaultServiceError::Unauthorized => 401,
            _ => 500,
        }
    }

    /// The HTTP status that answers a request refused with this error: 404
    /// for a vault that is not there, 400 for an amount or a balance that does
    /// not allow the operation, 401 for a caller without the right, 500 for
    /// everything else.
    pub fn status_code(&self) -> (code: u16)
        ensures
            code == self.status_of(),
    {
        match self {
            VaultServiceError::VaultNotFound(_) => 404,
            VaultServiceError::InsufficientBalance(_, _) => 400,
            VaultServiceError::InvalidAmount(_) => 400,
            VaultServiceError::InsufficientBalanceToLock => 400,
            VaultServiceError::InvalidUnlockAmount => 400,
            VaultServiceError::InsufficientTransferBalance => 400,
            VaultServiceError::Unauthorized => 401,
            _ => 500,
        }
    }

    /// The alert that this error owes the subscribers: an operation that
    /// would have left a vault's books unbalanced is never passed over in
    /// silence. No other error is announced.
    pub fn alert(&self) -> (r: Option<WsMessage>)
        ensures
            self is InvariantViolation ==> (r matches Some(WsMessage::Error { message })
                && message@ == self.message_text()),
            !(self is InvariantViolation) ==> r is None,
    {
        match self {
            VaultServiceError::InvariantViolation => Some(
                WsMessage::Error { message: self.message() },
            ),
            _ => None,
        }
    }

    /// The error's message.
    pub open spec fn message_text(self) -> Seq<char> {
        match self {
            VaultServiceError::DatabaseError(text) => "Database error: "@ + text@,
            VaultServiceError::SolanaClientError(text) => "Solana client error: "@ + text@,
            VaultServiceError::SolanaProgramError(text) => "Solana program error: "@ + text@,
            VaultServiceError::AnchorError(text) => "Anchor error: "@ + text@,
            VaultServiceError::InvalidPublicKey(e) => "Invalid public key: "@ + e.message_text(),
            VaultServiceError::SerializationError(text) => "Serialization error: "@ + text@,
            VaultServiceError::BsonError(text) => "BSON error: "@ + text@,
            VaultServiceError::VaultNotFound(text) => "Vault not found: "@ + text@,
            VaultServiceError::InsufficientBalance(available, required) =>
                "Insufficient balance: available="@ + decimal_text(available as nat)
                    + ", required="@ + decimal_text(required as nat),
            VaultServiceError::TransactionFailed(text) => "Transaction failed: "@ + text@,
            VaultServiceError::ConfigError(text) => "Configuration error: "@ + text@,
            VaultServiceError::InvalidAmount(text) => "Invalid amount: "@ + text@,
            VaultServiceError::Unauthorized => "Unauthorized access"@,
            VaultServiceError::InternalError(text) => "Internal server error: "@ + text@,
            VaultServiceError::WebSocketError(text) => "WebSocket error: "@ + text@,
            VaultServiceError::IoError(text) => "IO error: "@ + text@,
            VaultServiceError::InsufficientBalanceToLock => "Insufficient balance to lock"@,
            VaultServiceError::InvalidUnlockAmount => "Cannot unlock more than locked balance"@,
            VaultServiceError::InsufficientTransferBalance =>
                "Transfer amount exceeds available balance"@,
            VaultServiceError::ArithmeticOverflow => "Numerical overflow occurred"@,
            VaultServiceError::ArithmeticUnderflow => "Underflow in balance calculation"@,
            VaultServiceError::InvariantViolation => "Invalid vault state"@,
        }
    }

    /// The error's message.
    pub fn message(&self) -> (text: String)
        ensures
            text@ == self.message_text(),
    {
        match self {
            VaultServiceError::DatabaseError(text) => String::from_str("Database error: ").concat(
                text.as_str(),
            ),
            VaultServiceError::SolanaClientError(text) => String::from_str(
                "Solana client error: ",
            ).concat(text.as_str()),
            VaultServiceError::SolanaProgramError(text) => String::from_str(
                "Solana program error: ",
            ).concat(text.as_str()),
            VaultServiceError::AnchorError(text) => String::from_str("Anchor error: ").concat(
                text.as_str(),
            ),
            VaultServiceError::InvalidPublicKey(e) => String::from_str(
                "Invalid public key: ",
            ).concat(e.message().as_str()),
            VaultServiceError::SerializationError(text) => String::from_str(
                "Serialization error: ",
            ).concat(text.as_str()),
            VaultServiceError::BsonError(text) => String::from_str("BSON error: ").concat(
                text.as_str(),
            ),
            VaultServiceError::VaultNotFound(text) => String::from_str("Vault not found: ").concat(
                text.as_str(),
            ),
            VaultServiceError::InsufficientBalance(available, required) => String::from_str(
                "Insufficient balance: available=",
            ).concat(decimal(*available).as_str()).concat(", required=").concat(
                decimal(*required).as_str(),
            ),
            VaultServiceError::TransactionFailed(text) => String::from_str(
                "Transaction failed: ",
            ).concat(text.as_str()),
            VaultServiceError::ConfigError(text) => String::from_str(
                "Configuration error: ",
            ).concat(text.as_str()),
            VaultServiceError::InvalidAmount(text) => String::from_str("Invalid amount: ").concat(
                text.as_str(),
            ),
            VaultServiceError::Unauthorized => String::from_str("Unauthorized access"),
            VaultServiceError::InternalError(text) => String::from_str(
                "Internal server error: ",
            ).concat(text.as_str()),
            VaultServiceError::WebSocketError(text) => String::from_str("WebSocket error: ").concat(
                text.as_str(),
            ),
            VaultServiceError::IoError(text) => String::from_str("IO error: ").concat(
                text.as_str(),
            ),
            VaultServiceError::InsufficientBalanceToLock => String::from_str(
                "Insufficient balance to lock",
            ),
            VaultServiceError::InvalidUnlockAmount => String::from_str(
                "Cannot unlock more than locked balance",
            ),
            VaultServiceError::InsufficientTransferBalance => String::from_str(
                "Transfer amount exceeds available balance",
            ),
            VaultServiceError::ArithmeticOverflow => String::from_str(
                "Numerical overflow occurred",
            ),
            VaultServiceError::ArithmeticUnderflow => String::from_str(
                "Underflow in balance calculation",
            ),
            VaultServiceError::InvariantViolation => String::from_str("Invalid vault state"),
        }
    }
}

} // verus!
