//! The settlement program's accounts and the events it emits.

use vstd::prelude::*;
use crate::ledger::Balances;
use crate::pubkey::Pubkey;

verus! {

/// The account that holds one owner's collateral.
#[derive(Clone, Copy, Debug, PartialEq, Eq)]
pub struct CollateralVault {
    pub owner: Pubkey,
    /// The token account that holds the collateral itself.
    pub token_account: Pubkey,
    pub total_balance: u64,
    /// Collateral that backs open positions.
    pub locked_balance: u64,
    /// Collateral that can be withdrawn.
    pub available_balance: u64,
    /// Everything ever deposited.
    pub total_deposited: u64,
    /// Everything ever withdrawn.
    pub total_withdrawn: u64,
    pub created_at: i64,
    pub last_updated: i64,
    /// The bump seed of the vault's address.
    pub bump: u8,
}

impl CollateralVault {
    /// The account's size in bytes: an 8-byte tag, two keys, five balances,
    /// two times and the bump.
    pub const LEN: usize = 8 + 32 + 32 + 8 + 8 + 8 + 8 + 8 + 8 + 8 + 1;

    /// The vault with other balances, touched at `now`.
    pub open spec fn with_balances(self, b: Balances, now: i64) -> CollateralVault {
        CollateralVault {
            total_balance: b.total as u64,
            locked_balance: b.locked as u64,
            available_balance: b.available as u64,
            total_deposited: b.deposited as u64,
            total_withdrawn: b.withdrawn as u64,
            last_updated: now,
            ..self
        }
    }
}

impl View for CollateralVault {
    type V = Balances;

    /// The vault's balances.
    open spec fn view(&self) -> Balances {
        Balances {
            total: self.total_balance as nat,
            locked: self.locked_balance as nat,
            available: self.available_balance as nat,
            deposited: self.total_deposited as nat,
            withdrawn: self.total_withdrawn as nat,
        }
    }
}

/// The account that lists the programs allowed to lock and unlock.
#[derive(Clone, Debug, PartialEq, Eq)]
pub struct VaultAuthority {
    pub authorized_programs: Vec<Pubkey>,
    pub admin: Pubkey,
    pub bump: u8,
}

impl VaultAuthority {
    /// How many programs the list can hold.
    pub const MAX_AUTHORIZED_PROGRAMS: usize = 10;

    /// The account's size in bytes: an 8-byte tag, the list with its 4-byte
    /// length, the admin's key and the bump.
    pub const LEN: usize = 8 + 4 + (32 * 10) + 32 + 1;
}

/// The kinds of balance operation.
#[derive(Clone, Copy, Debug, PartialEq, Eq, Structural)]
pub enum TransactionType {
    Deposit,
    Withdrawal,
    Lock,
    Unlock,
    Transfer,
}

#[derive(Clone, Copy, Debug, PartialEq, Eq)]
pub struct DepositEvent {
    pub user: Pubkey,
    pub vault: Pubkey,
    pub amount: u64,
    pub new_balance: u64,
    pub timestamp: i64,
}

#[derive(Clone, Copy, Debug, PartialEq, Eq)]
pub struct WithdrawalEvent {
    pub user: Pubkey,
    pub vault: Pubkey,
    pub amount: u64,
    pub new_balance: u64,
    pub timestamp: i64,
}

#[derive(Clone, Copy, Debug, PartialEq, Eq)]
pub struct LockEvent {
    pub vault: Pubkey,
    pub amount: u64,
    pub locked_balance: u64,
    pub available_balance: u64,
    pub timestamp: i64,
}

#[derive(Clone, Copy, Debug, PartialEq, Eq)]
pub struct UnlockEvent {
    pub vault: Pubkey,
    pub amount: u64,
    pub locked_balance: u64,
    pub available_balance: u64,
    pub timestamp: i64,
}

#[derive(Clone, Copy, Debug, PartialEq, Eq)]
pub struct TransferEvent {
    pub from_vault: Pubkey,
    pub to_vault: Pubkey,
    pub amount: u64,
    pub timestamp: i64,
}

#[derive(Clone, Copy, Debug, PartialEq, Eq)]
pub struct AuthorityUpdatedEvent {
    pub authority: Pubkey,
    pub program: Pubkey,
    pub authorized: bool,
    pub timestamp: i64,
}

} // verus!
