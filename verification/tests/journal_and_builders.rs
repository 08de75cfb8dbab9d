use collateral_ledger::api::handlers::tvl_response;
use collateral_ledger::config::{Config, MongoDbConfig, ServerConfig, SolanaConfig, VaultProgramConfig};
use collateral_ledger::database::{get_recent_audit_logs, get_vault_transactions, is_newest_first};
use collateral_ledger::errors::VaultServiceError;
use collateral_ledger::lock_order::{comes_first, lock_order};
use collateral_ledger::models::{
    AuditLog, TransactionDocument, TransactionStatus, TransactionType, TvlResponse, TvlStats,
    VaultDocument, VaultStatus,
};
use collateral_ledger::program::errors::VaultError;
use collateral_ledger::pubkey::{ParsePubkeyError, Pubkey};
use collateral_ledger::time::Timestamp;
use collateral_ledger::vault_manager::{Stamp, VaultCreation, VaultManager};

fn at(secs: i64, nanos: u32) -> Timestamp {
    Timestamp { secs, nanos }
}

fn entry(vault: &str, secs: i64, nanos: u32) -> TransactionDocument {
    TransactionDocument {
        id: format!("{vault}-{secs}-{nanos}"),
        vault: vault.to_string(),
        transaction_type: TransactionType::Lock,
        amount: 1,
        signature: None,
        timestamp: at(secs, nanos),
        from_vault: None,
        to_vault: None,
        status: TransactionStatus::Confirmed,
        error_message: None,
    }
}

fn log(secs: i64) -> AuditLog {
    AuditLog {
        id: format!("log-{secs}"),
        vault: None,
        user: None,
        action: "a".to_string(),
        details: vec![],
        ip_address: None,
        timestamp: at(secs, 0),
        success: true,
    }
}

fn config() -> Config {
    Config {
        solana: SolanaConfig {
            rpc_url: "r".to_string(),
            ws_url: "w".to_string(),
            commitment: "c".to_string(),
        },
        mongodb: MongoDbConfig { uri: "u".to_string(), database: "d".to_string() },
        server: ServerConfig { host: "h".to_string(), port: 1 },
        vault_program: VaultProgramConfig { program_id: "p".to_string(), usdt_mint: "m".to_string() },
    }
}

fn stamp() -> Stamp {
    Stamp { entry_id: "e".to_string(), snapshot_id: "s".to_string(), now: at(5, 6) }
}

#[test]
fn times_are_ordered_by_seconds_then_nanoseconds() {
    assert!(at(2, 0).is_later_than(&at(1, 999_999_999)));
    assert!(at(1, 2).is_later_than(&at(1, 1)));
    assert!(!at(1, 1).is_later_than(&at(1, 1)));
    assert!(!at(1, 1).is_later_than(&at(1, 2)));
    assert!(!at(-3, 0).is_later_than(&at(-2, 0)));
    assert!(is_newest_first(&vec![]));
    assert!(is_newest_first(&vec![at(1, 1)]));
    assert!(is_newest_first(&vec![at(3, 0), at(2, 9), at(2, 9), at(2, 8), at(-1, 0)]));
    assert!(!is_newest_first(&vec![at(3, 0), at(2, 8), at(2, 9)]));
    assert!(!is_newest_first(&vec![at(1, 0), at(2, 0), at(0, 0)]));
}

#[test]
fn a_history_is_of_one_vault_newest_first_and_bounded() {
    let history = vec![entry("a", 9, 0), entry("a", 7, 5), entry("a", 7, 5), entry("a", 1, 0)];
    assert_eq!(get_vault_transactions(history.clone(), "a", 4), Ok(history.clone()));
    assert_eq!(get_vault_transactions(history.clone(), "a", 50), Ok(history.clone()));
    assert_eq!(get_vault_transactions(vec![], "a", 0), Ok(vec![]));
    let bad = Err(VaultServiceError::DatabaseError(
        "store returned a malformed transaction history".to_string(),
    ));
    assert_eq!(get_vault_transactions(history.clone(), "a", 3), bad);
    assert_eq!(get_vault_transactions(history.clone(), "b", 4), bad);
    assert_eq!(get_vault_transactions(vec![], "a", -1), bad);
    assert_eq!(get_vault_transactions(history.clone(), "a", i64::MIN), bad);
    let mixed = vec![entry("a", 9, 0), entry("b", 7, 5)];
    assert_eq!(get_vault_transactions(mixed, "a", 10), bad);
    let oldest_first = vec![entry("a", 1, 0), entry("a", 9, 0)];
    assert_eq!(get_vault_transactions(oldest_first, "a", 10), bad);
}

#[test]
fn a_recent_view_of_the_audit_trail_is_newest_first_and_bounded() {
    let logs = vec![log(9), log(8), log(8), log(2)];
    assert_eq!(get_recent_audit_logs(logs.clone(), 4), Ok(logs.clone()));
    let bad =
        Err(VaultServiceError::DatabaseError("store returned a malformed audit trail".to_string()));
    assert_eq!(get_recent_audit_logs(logs.clone(), 3), bad);
    assert_eq!(get_recent_audit_logs(vec![log(1), log(2)], 10), bad);
    assert_eq!(get_recent_audit_logs(vec![], -5), bad);
    assert_eq!(get_recent_audit_logs(vec![], 0), Ok(vec![]));
}

#[test]
fn the_manager_is_built_from_what_its_keys_read_as() {
    let program = Pubkey { bytes: [1; 32] };
    let mint = Pubkey { bytes: [2; 32] };
    assert_eq!(
        VaultManager::from_keys(config(), Ok(program), Ok(mint)),
        Ok(VaultManager { config: config(), program_id: program, usdt_mint: mint })
    );
    assert_eq!(
        VaultManager::from_keys(config(), Err(ParsePubkeyError::Invalid), Ok(mint)),
        Err(VaultServiceError::ConfigError("Invalid program ID: Invalid Base58 string".to_string()))
    );
    assert_eq!(
        VaultManager::from_keys(
            config(),
            Err(ParsePubkeyError::WrongSize),
            Err(ParsePubkeyError::Invalid)
        ),
        Err(VaultServiceError::ConfigError(
            "Invalid program ID: String is the wrong size".to_string()
        ))
    );
    assert_eq!(
        VaultManager::from_keys(config(), Ok(program), Err(ParsePubkeyError::WrongSize)),
        Err(VaultServiceError::ConfigError("Invalid USDT mint: String is the wrong size".to_string()))
    );
}

#[test]
fn a_vault_is_opened_empty_and_active() {
    let created =
        VaultManager::open_vault(None, Some("addr".to_string()), "owner".to_string(), stamp());
    assert_eq!(
        created,
        Ok(VaultCreation {
            vault: VaultDocument {
                id: "addr".to_string(),
                owner: "owner".to_string(),
                token_account: String::new(),
                total_balance: 0,
                locked_balance: 0,
                available_balance: 0,
                total_deposited: 0,
                total_withdrawn: 0,
                created_at: at(5, 6),
                last_updated: at(5, 6),
                bump: 0,
                status: VaultStatus::Active,
            },
            audit: AuditLog {
                id: "e".to_string(),
                vault: Some("addr".to_string()),
                user: Some("owner".to_string()),
                action: "initialize_vault".to_string(),
                details: vec![("vault".to_string(), "addr".to_string())],
                ip_address: None,
                timestamp: at(5, 6),
                success: true,
            },
            vault_pubkey: "addr".to_string(),
        })
    );
    let existing = created.unwrap().vault;
    assert_eq!(
        VaultManager::open_vault(
            Some(existing.clone()),
            Some("addr".to_string()),
            "owner".to_string(),
            stamp()
        ),
        Err(VaultServiceError::InternalError("Vault already exists".to_string()))
    );
    assert_eq!(
        VaultManager::open_vault(None, None, "owner".to_string(), stamp()),
        Err(VaultServiceError::InternalError(
            "Unable to find a viable program address bump seed".to_string()
        ))
    );
    assert_eq!(
        VaultManager::open_vault(Some(existing), None, "owner".to_string(), stamp()),
        Err(VaultServiceError::InternalError(
            "Unable to find a viable program address bump seed".to_string()
        ))
    );
}

#[test]
fn statistics_are_reported_with_the_time_text_they_are_given() {
    let stats = TvlStats {
        id: "s".to_string(),
        total_tvl: 3,
        total_locked: 2,
        total_available: 1,
        vault_count: 4,
        timestamp: at(0, 0),
    };
    assert_eq!(
        tvl_response(&stats, Some("then".to_string())),
        Ok(TvlResponse {
            total_tvl: 3,
            total_locked: 2,
            total_available: 1,
            vault_count: 4,
            timestamp: "then".to_string(),
        })
    );
    assert_eq!(
        tvl_response(&stats, None),
        Err(VaultServiceError::InternalError("statistics timestamp is out of range".to_string()))
    );
}

#[test]
fn each_program_error_has_its_message() {
    let cases = [
        (VaultError::InvalidAmount, "Invalid amount specified"),
        (VaultError::InsufficientBalance, "Insufficient available balance"),
        (VaultError::InsufficientBalanceToLock, "Insufficient balance to lock"),
        (VaultError::InvalidUnlockAmount, "Cannot unlock more than locked balance"),
        (VaultError::UnauthorizedProgram, "Unauthorized program attempting to access vault"),
        (VaultError::HasOpenPositions, "Vault has open positions, cannot withdraw"),
        (VaultError::OverflowError, "Overflow in balance calculation"),
        (VaultError::ArithmeticUnderflow, "Underflow in balance calculation"),
        (VaultError::InsufficientTransferBalance, "Transfer amount exceeds available balance"),
        (VaultError::UnauthorizedOwner, "Only vault owner can perform this operation"),
        (VaultError::UnauthorizedAdmin, "Only admin can modify authority"),
        (VaultError::MaxAuthorizedProgramsReached, "Maximum authorized programs limit reached"),
        (VaultError::ProgramNotAuthorized, "Program not found in authorized list"),
        (VaultError::InvariantViolation, "Invalid vault state"),
        (VaultError::ArithmeticOverflow, "Numerical overflow occurred"),
    ];
    for (error, message) in cases {
        assert_eq!(error.message(), message);
    }
}

#[test]
fn two_locks_are_taken_in_one_order() {
    assert_eq!(lock_order("a", "b"), ("a", "b"));
    assert_eq!(lock_order("b", "a"), ("a", "b"));
    assert_eq!(lock_order("vault", "vault"), ("vault", "vault"));
    assert_eq!(lock_order("ab", "a"), ("a", "ab"));
    assert_eq!(lock_order("", "a"), ("", "a"));
    assert_eq!(lock_order("Z", "a"), ("Z", "a"));
    for (a, b) in [("", ""), ("a", ""), ("abc", "abd"), ("abc", "ab"), ("é", "z"), ("z", "é"), ("10", "9")]
    {
        assert_eq!(comes_first(a, b), a <= b);
        assert_eq!(comes_first(b, a), b <= a);
        assert_eq!(lock_order(a, b), lock_order(b, a));
    }
}
