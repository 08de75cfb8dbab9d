//! Off-chain collateral ledger: vault balances, the five balance operations,
//! the transaction journal, snapshots, reconciliation and fleet statistics,
//! each with a contract that Verus proves.

pub mod api;
pub mod balance_tracker;
pub mod config;
pub mod database;
pub mod errors;
pub mod identity;
pub mod ledger;
pub mod lock_order;
pub mod models;
pub mod program;
pub mod text;
pub mod pubkey;
pub mod time;
pub mod transaction_builder;
pub mod vault_manager;
