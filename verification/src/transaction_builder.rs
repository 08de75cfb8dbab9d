//! The decisions around submitting a transaction to the settlement network:
//! how a status reads, and when to poll again. The network calls themselves
//! are the caller's.

use vstd::prelude::*;
use crate::errors::VaultServiceError;

verus! {

/// The compute unit limit that every submitted transaction asks for.
pub const COMPUTE_UNIT_LIMIT: u32 = 300000;

/// The price per compute unit that every submitted transaction offers.
pub const COMPUTE_UNIT_PRICE: u64 = 1;

/// How long to wait between two polls, in seconds.
pub const POLL_INTERVAL_SECS: u64 = 2;

/// What the network says of a signature: nothing yet, that the transaction
/// went through, or why it failed.
#[derive(Debug, Clone, PartialEq, Eq)]
pub enum SignatureStatus {
    Unknown,
    Succeeded,
    Failed(String),
}

/// What to do after a poll.
#[derive(Debug, Clone, PartialEq, Eq)]
pub enum Confirmation {
    /// The transaction is confirmed.
    Confirmed,
    /// The transaction failed, or the polls are used up.
    Failed(VaultServiceError),
    /// Poll again as attempt `attempt`, after the poll interval if `wait` is
    /// set.
    Retry { attempt: u32, wait: bool },
}

/// What is said where the polls are used up.
pub open spec fn timeout_text() -> Seq<char> {
    "Transaction confirmation timeout"@
}

/// `e` says that a transaction failed for the reason `detail`.
pub open spec fn is_failure(e: VaultServiceError, detail: Seq<char>) -> bool {
    e matches VaultServiceError::TransactionFailed(text) && text@ == "Transaction failed: "@
        + detail
}

/// `e` says that the polls are used up.
pub open spec fn is_timeout(e: VaultServiceError) -> bool {
    e matches VaultServiceError::TransactionFailed(text) && text@ == timeout_text()
}

/// Whether a transaction went through: yes, not yet, or the failure.
pub fn get_transaction_status(status: &SignatureStatus) -> (r: Result<bool, VaultServiceError>)
    ensures
        status is Succeeded ==> r == Ok::<bool, VaultServiceError>(true),
        status is Unknown ==> r == Ok::<bool, VaultServiceError>(false),
        status matches SignatureStatus::Failed(detail) ==> (r matches Err(e) && is_failure(
            e,
            detail@,
        )),
{
    match status {
        SignatureStatus::Succeeded => Ok(true),
        SignatureStatus::Unknown => Ok(false),
        SignatureStatus::Failed(detail) => Err(
            VaultServiceError::TransactionFailed(
                String::from_str("Transaction failed: ").concat(detail.as_str()),
            ),
        ),
    }
}

/// The result of a simulation: fine, or the failure that it showed.
pub fn simulate_transaction(failure: Option<String>) -> (r: Result<(), VaultServiceError>)
    ensures
        failure is None ==> r is Ok,
        failure matches Some(detail) ==> (r matches Err(
            VaultServiceError::TransactionFailed(text),
        ) && text@ == "Simulation failed: "@ + detail@),
{
    match failure {
        None => Ok(()),
        Some(detail) => Err(
            VaultServiceError::TransactionFailed(
                String::from_str("Simulation failed: ").concat(detail.as_str()),
            ),
        ),
    }
}

/// Where the wait for a confirmation starts: with the first poll, or, where
/// no poll is allowed, with a timeout.
pub fn begin_confirmation(max_retries: u32) -> (r: Confirmation)
    ensures
        max_retries > 0 ==> r == (Confirmation::Retry { attempt: 0, wait: false }),
        max_retries == 0 ==> (r matches Confirmation::Failed(e) && is_timeout(e)),
{
    if max_retries == 0 {
        Confirmation::Failed(
            VaultServiceError::TransactionFailed(
                String::from_str("Transaction confirmation timeout"),
            ),
        )
    } else {
        Confirmation::Retry { attempt: 0, wait: false }
    }
}

/// What to do after poll number `attempt`, counted from 0, of at most
/// `max_retries`, which found `status`. A transaction that went through is
/// confirmed; one that failed fails; one not yet known is polled again after
/// a wait, unless this was the last poll allowed: then the wait has timed out.
pub fn confirm_transaction(attempt: u32, max_retries: u32, status: &SignatureStatus) -> (r:
    Confirmation)
    ensures
        status is Succeeded ==> r == Confirmation::Confirmed,
        status matches SignatureStatus::Failed(detail) ==> (r matches Confirmation::Failed(e)
            && is_failure(e, detail@)),
        status is Unknown && attempt + 1 < max_retries ==> r == (Confirmation::Retry {
            attempt: (attempt + 1) as u32,
            wait: true,
        }),
        status is Unknown && attempt + 1 >= max_retries ==> (r matches Confirmation::Failed(e)
            && is_timeout(e)),
{
    match status {
        SignatureStatus::Succeeded => Confirmation::Confirmed,
        SignatureStatus::Failed(detail) => Confirmation::Failed(
            VaultServiceError::TransactionFailed(
                String::from_str("Transaction failed: ").concat(detail.as_str()),
            ),
        ),
        SignatureStatus::Unknown => {
            if max_retries > 0 && attempt < max_retries - 1 {
                Confirmation::Retry { attempt: attempt + 1, wait: true }
            } else {
                Confirmation::Failed(
                    VaultServiceError::TransactionFailed(
                        String::from_str("Transaction confirmation timeout"),
                    ),
                )
            }
        },
    }
}

} // verus!
