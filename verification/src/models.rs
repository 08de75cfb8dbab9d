//! The records the ledger keeps and the messages it exchanges.

use vstd::prelude::*;
use crate::ledger::Balances;
use crate::time::Timestamp;

verus! {

/// A vault as the store holds it.
#[derive(Debug, Clone, PartialEq, Eq)]
pub struct VaultDocument {
    /// The vault's address, in text.
    pub id: String,
    /// The owner's key, in text.
    pub owner: String,
    pub token_account: String,
    pub total_balance: u64,
    pub locked_balance: u64,
    pub available_balance: u64,
    pub total_deposited: u64,
    pub total_withdrawn: u64,
    pub created_at: Timestamp,
    pub last_updated: Timestamp,
    pub bump: u8,
    pub status: VaultStatus,
}

impl View for VaultDocument {
    type V = Balances;

    /// The vault's balances.
    open spec fn view(&self) -> Balances {
        Balances {
            total: self.total_balance as nat,
            locked: self.locked_balance as nat,
            available: self.available_balance as nat,
            deposited: self.total_deposited as nat,
            withdrawn: self.total_withdrawn as nat,
        }
    }
}

#[derive(Debug, Clone, Copy, PartialEq, Eq, Structural)]
pub enum VaultStatus {
    Active,
    Suspended,
    Closed,
}

/// One entry of the transaction journal.
#[derive(Debug, Clone, PartialEq, Eq)]
pub struct TransactionDocument {
    pub id: String,
    pub vault: String,
    pub transaction_type: TransactionType,
    pub amount: u64,
    /// The settlement reference, where there is one.
    pub signature: Option<String>,
    pub timestamp: Timestamp,
    pub from_vault: Option<String>,
    pub to_vault: Option<String>,
    pub status: TransactionStatus,
    pub error_message: Option<String>,
}

#[derive(Debug, Clone, Copy, PartialEq, Eq, Structural)]
pub enum TransactionType {
    Deposit,
    Withdrawal,
    Lock,
    Unlock,
    Transfer,
}

#[derive(Debug, Clone, Copy, PartialEq, Eq, Structural)]
pub enum TransactionStatus {
    Pending,
    Confirmed,
    Failed,
}

/// A vault's three balances at one moment.
#[derive(Debug, Clone, PartialEq, Eq)]
pub struct BalanceSnapshot {
    pub id: String,
    pub vault: String,
    pub total_balance: u64,
    pub locked_balance: u64,
    pub available_balance: u64,
    pub timestamp: Timestamp,
    pub snapshot_type: SnapshotType,
}

#[derive(Debug, Clone, Copy, PartialEq, Eq, Structural)]
pub enum SnapshotType {
    Hourly,
    Daily,
    OnDemand,
}

/// One entry of the audit trail.
#[derive(Debug, Clone, PartialEq, Eq)]
pub struct AuditLog {
    pub id: String,
    pub vault: Option<String>,
    pub user: Option<String>,
    pub action: String,
    /// Named details of the action, as pairs of name and value.
    pub details: Vec<(String, String)>,
    pub ip_address: Option<String>,
    pub timestamp: Timestamp,
    pub success: bool,
}

/// Fleet-wide totals at one moment.
#[derive(Debug, Clone, PartialEq, Eq)]
pub struct TvlStats {
    pub id: String,
    pub total_tvl: u64,
    pub total_locked: u64,
    pub total_available: u64,
    pub vault_count: u64,
    pub timestamp: Timestamp,
}

#[derive(Debug, Clone, PartialEq, Eq)]
pub struct InitializeVaultRequest {
    pub user_pubkey: String,
}

#[derive(Debug, Clone, PartialEq, Eq)]
pub struct DepositRequest {
    pub user_pubkey: String,
    pub amount: u64,
}

#[derive(Debug, Clone, PartialEq, Eq)]
pub struct WithdrawRequest {
    pub user_pubkey: String,
    pub amount: u64,
}

#[derive(Debug, Clone, PartialEq, Eq)]
pub struct LockCollateralRequest {
    pub vault_pubkey: String,
    pub amount: u64,
}

#[derive(Debug, Clone, PartialEq, Eq)]
pub struct UnlockCollateralRequest {
    pub vault_pubkey: String,
    pub amount: u64,
}

#[derive(Debug, Clone, PartialEq, Eq)]
pub struct TransferCollateralRequest {
    pub from_vault: String,
    pub to_vault: String,
    pub amount: u64,
}

#[derive(Debug, Clone, PartialEq, Eq)]
pub struct VaultBalanceResponse {
    pub vault: String,
    pub owner: String,
    pub total_balance: u64,
    pub locked_balance: u64,
    pub available_balance: u64,
    pub total_deposited: u64,
    pub total_withdrawn: u64,
}

#[derive(Debug, Clone, PartialEq, Eq)]
pub struct TransactionResponse {
    pub signature: String,
    pub status: String,
}

#[derive(Debug, Clone, PartialEq, Eq)]
pub struct TvlResponse {
    pub total_tvl: u64,
    pub total_locked: u64,
    pub total_available: u64,
    pub vault_count: u64,
    pub timestamp: String,
}

#[derive(Debug, Clone, PartialEq, Eq)]
pub struct ErrorResponse {
    pub error: String,
    pub message: String,
}

/// What subscribers are told.
#[derive(Debug, Clone, PartialEq, Eq)]
pub enum WsMessage {
    BalanceUpdate { vault: String, total_balance: u64, locked_balance: u64, available_balance: u64 },
    Deposit { vault: String, amount: u64, signature: String },
    Withdrawal { vault: String, amount: u64, signature: String },
    Lock { vault: String, amount: u64 },
    Unlock { vault: String, amount: u64 },
    TvlUpdate { total_tvl: u64, vault_count: u64 },
    Error { message: String },
}

} // verus!
