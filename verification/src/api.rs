//! What the transport layer needs of the ledger.

pub mod handlers;
