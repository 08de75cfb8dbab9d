use collateral_ledger::balance_tracker::{
    balance_stats_limit, create_daily_snapshots, create_hourly_snapshots, detect_drift,
    detect_unusual_activity, monitor_vault, reconcile_balances, update_tvl,
    validate_vault_balance,
};
use collateral_ledger::database::{calculate_tvl, calculate_tvl_with, update_transaction_status};
use collateral_ledger::errors::VaultServiceError;
use collateral_ledger::models::{
    SnapshotType, TransactionDocument, TransactionStatus, TransactionType, TvlStats,
    VaultDocument, VaultStatus, WsMessage,
};
use collateral_ledger::program::state::CollateralVault;
use collateral_ledger::pubkey::Pubkey;
use collateral_ledger::time::Timestamp;

fn at(secs: i64) -> Timestamp {
    Timestamp { secs, nanos: 0 }
}

fn vault(id: &str, total: u64, locked: u64, available: u64) -> VaultDocument {
    VaultDocument {
        id: id.to_string(),
        owner: format!("owner-of-{id}"),
        token_account: String::new(),
        total_balance: total,
        locked_balance: locked,
        available_balance: available,
        total_deposited: 0,
        total_withdrawn: 0,
        created_at: at(1),
        last_updated: at(1),
        bump: 0,
        status: VaultStatus::Active,
    }
}

fn entry(amount: u64) -> TransactionDocument {
    TransactionDocument {
        id: format!("t-{amount}"),
        vault: "a".to_string(),
        transaction_type: TransactionType::Deposit,
        amount,
        signature: None,
        timestamp: at(9),
        from_vault: None,
        to_vault: None,
        status: TransactionStatus::Pending,
        error_message: None,
    }
}

#[test]
fn books_are_validated_without_overflow() {
    assert!(validate_vault_balance(&vault("a", 1000, 300, 700)));
    assert!(!validate_vault_balance(&vault("a", 1000, 300, 701)));
    assert!(!validate_vault_balance(&vault("a", 0, u64::MAX, 1)));
}

#[test]
fn reconciliation_alerts_once_per_unbalanced_vault_in_order() {
    let vaults = vec![
        vault("a", 10, 5, 5),
        vault("b", 10, 5, 4),
        vault("c", 0, 0, 0),
        vault("d", 1, 1, 1),
    ];
    assert_eq!(
        reconcile_balances(&vaults),
        vec![
            WsMessage::Error { message: "Balance discrepancy in vault b".to_string() },
            WsMessage::Error { message: "Balance discrepancy in vault d".to_string() },
        ]
    );
    assert_eq!(reconcile_balances(&vec![]), vec![]);
    assert_eq!(reconcile_balances(&vec![vault("a", 1, 0, 1)]), vec![]);
    assert_eq!(vaults[1].available_balance, 4);
}

#[test]
fn drift_from_the_settlement_program_is_reported_not_corrected() {
    let account = CollateralVault {
        owner: Pubkey { bytes: [1; 32] },
        token_account: Pubkey { bytes: [2; 32] },
        total_balance: 1000,
        locked_balance: 300,
        available_balance: 700,
        total_deposited: 5000,
        total_withdrawn: 4000,
        created_at: 0,
        last_updated: 0,
        bump: 1,
    };
    assert_eq!(detect_drift(&vault("a", 1000, 300, 700), &account), None);
    for mirror in [vault("a", 999, 300, 700), vault("a", 1000, 299, 700), vault("a", 1000, 300, 701)]
    {
        assert_eq!(
            detect_drift(&mirror, &account),
            Some(WsMessage::Error { message: "Balance drift in vault a".to_string() })
        );
    }
}

#[test]
fn periodic_snapshots_cover_every_vault() {
    let vaults = vec![vault("a", 10, 5, 5), vault("b", 7, 0, 7)];
    let hourly = create_hourly_snapshots(&vaults);
    assert_eq!(hourly.len(), 2);
    assert_eq!(hourly[0].vault, "a");
    assert_eq!(
        (hourly[0].total_balance, hourly[0].locked_balance, hourly[0].available_balance),
        (10, 5, 5)
    );
    assert_eq!(hourly[1].vault, "b");
    assert_eq!(
        (hourly[1].total_balance, hourly[1].locked_balance, hourly[1].available_balance),
        (7, 0, 7)
    );
    assert!(hourly.iter().all(|s| s.snapshot_type == SnapshotType::Hourly));
    assert_ne!(hourly[0].id, hourly[1].id);
    let daily = create_daily_snapshots(&vaults);
    assert_eq!(daily.len(), 2);
    assert!(daily.iter().all(|s| s.snapshot_type == SnapshotType::Daily));
    assert_eq!(daily[1].vault, "b");
    assert!(create_daily_snapshots(&vec![]).is_empty());
}

#[test]
fn monitoring_announces_the_present_balances() {
    assert_eq!(
        monitor_vault(Some(&vault("a", 10, 4, 6)), "a"),
        Ok(WsMessage::BalanceUpdate {
            vault: "a".to_string(),
            total_balance: 10,
            locked_balance: 4,
            available_balance: 6,
        })
    );
    assert_eq!(monitor_vault(None, "zz"), Err(VaultServiceError::VaultNotFound("zz".to_string())));
}

#[test]
fn a_day_of_statistics_is_twenty_four_snapshots() {
    assert_eq!(balance_stats_limit(1), Ok(24));
    assert_eq!(balance_stats_limit(30), Ok(720));
    assert_eq!(balance_stats_limit(0), Ok(0));
    assert_eq!(balance_stats_limit(-2), Ok(-48));
    assert_eq!(balance_stats_limit(i64::MAX / 24), Ok(i64::MAX / 24 * 24));
    assert_eq!(balance_stats_limit(i64::MAX / 24 + 1), Err(VaultServiceError::ArithmeticOverflow));
    assert_eq!(balance_stats_limit(i64::MIN), Err(VaultServiceError::ArithmeticOverflow));
}

#[test]
fn unusual_activity_needs_more_than_ten_entries() {
    let mut history: Vec<TransactionDocument> = (0..10).map(|_| entry(1)).collect();
    history[3] = entry(1_000_000);
    assert!(!detect_unusual_activity(&history));
    assert!(!detect_unusual_activity(&vec![]));
}

#[test]
fn unusual_activity_is_an_entry_above_ten_times_the_recent_average() {
    // Nine entries of 1 and one of 1000: the average is 100, ten times that is
    // 1000, and nothing is larger.
    let mut history: Vec<TransactionDocument> = (0..11).map(|_| entry(1)).collect();
    history[4] = entry(991);
    assert!(!detect_unusual_activity(&history));
    // Ten entries of 9 have the average 9; one of them raised to 18 gives the
    // sum 99, still the average 9, and 18 is not above 90.
    let mut history: Vec<TransactionDocument> = (0..11).map(|_| entry(9)).collect();
    history[0] = entry(18);
    assert!(!detect_unusual_activity(&history));
    // Nine entries of 0 and one of 9: the average is 0, and 9 is above 0.
    let mut history: Vec<TransactionDocument> = (0..12).map(|_| entry(0)).collect();
    history[9] = entry(9);
    assert!(detect_unusual_activity(&history));
    // The eleventh entry is not recent.
    let mut history: Vec<TransactionDocument> = (0..12).map(|_| entry(0)).collect();
    history[10] = entry(9);
    assert!(!detect_unusual_activity(&history));
    // Amounts whose sum does not fit 64 bits.
    let history: Vec<TransactionDocument> = (0..11).map(|_| entry(u64::MAX)).collect();
    assert!(!detect_unusual_activity(&history));
}

#[test]
fn fleet_statistics_sum_the_three_balances() {
    let vaults = vec![vault("a", 10, 5, 5), vault("b", 7, 0, 7), vault("c", 100, 99, 3)];
    assert_eq!(
        calculate_tvl_with(&vaults, "stats-1".to_string(), at(80)),
        Ok(TvlStats {
            id: "stats-1".to_string(),
            total_tvl: 117,
            total_locked: 104,
            total_available: 15,
            vault_count: 3,
            timestamp: at(80),
        })
    );
    assert_eq!(
        calculate_tvl_with(&vec![], "stats-2".to_string(), at(81)),
        Ok(TvlStats {
            id: "stats-2".to_string(),
            total_tvl: 0,
            total_locked: 0,
            total_available: 0,
            vault_count: 0,
            timestamp: at(81),
        })
    );
    let fresh = calculate_tvl(&vaults).unwrap();
    assert_eq!((fresh.total_tvl, fresh.total_locked, fresh.total_available), (117, 104, 15));
    assert_eq!(fresh.vault_count, 3);
    assert_eq!(fresh.id.len(), 36);
}

#[test]
fn fleet_statistics_that_do_not_fit_are_an_overflow() {
    let vaults = vec![vault("a", u64::MAX, 0, 0), vault("b", 1, 0, 0)];
    assert_eq!(
        calculate_tvl_with(&vaults, "s".to_string(), at(1)),
        Err(VaultServiceError::ArithmeticOverflow)
    );
    let vaults = vec![vault("a", 0, 0, u64::MAX), vault("b", 0, 0, 0), vault("c", 0, 0, 1)];
    assert_eq!(
        calculate_tvl_with(&vaults, "s".to_string(), at(1)),
        Err(VaultServiceError::ArithmeticOverflow)
    );
    assert_eq!(update_tvl(&vaults), Err(VaultServiceError::ArithmeticOverflow));
    let vaults = vec![vault("a", u64::MAX - 1, 0, 0), vault("b", 1, 0, 0)];
    assert_eq!(calculate_tvl_with(&vaults, "s".to_string(), at(1)).unwrap().total_tvl, u64::MAX);
}

#[test]
fn the_tvl_announcement_repeats_the_record() {
    let vaults = vec![vault("a", 10, 5, 5), vault("b", 7, 0, 7)];
    let (stats, event) = update_tvl(&vaults).unwrap();
    assert_eq!((stats.total_tvl, stats.total_locked, stats.total_available), (17, 5, 12));
    assert_eq!(event, WsMessage::TvlUpdate { total_tvl: 17, vault_count: 2 });
}

#[test]
fn a_pending_entry_settles_once() {
    let mut t = entry(5);
    assert!(update_transaction_status(
        &mut t,
        TransactionStatus::Confirmed,
        Some("sig".to_string()),
        None
    ));
    let mut expected = entry(5);
    expected.status = TransactionStatus::Confirmed;
    expected.signature = Some("sig".to_string());
    assert_eq!(t, expected);
    assert!(!update_transaction_status(
        &mut t,
        TransactionStatus::Failed,
        Some("other".to_string()),
        Some("late".to_string())
    ));
    assert_eq!(t, expected);
}

#[test]
fn a_pending_entry_can_fail_with_a_reason() {
    let mut t = entry(5);
    t.signature = Some("kept".to_string());
    assert!(update_transaction_status(
        &mut t,
        TransactionStatus::Failed,
        None,
        Some("rejected".to_string())
    ));
    assert_eq!(t.status, TransactionStatus::Failed);
    assert_eq!(t.signature, Some("kept".to_string()));
    assert_eq!(t.error_message, Some("rejected".to_string()));
    assert_eq!(t.amount, 5);
}

#[test]
fn an_entry_cannot_go_back_to_pending() {
    let mut t = entry(5);
    assert!(!update_transaction_status(&mut t, TransactionStatus::Pending, None, None));
    assert_eq!(t, entry(5));
    t.status = TransactionStatus::Failed;
    let before = t.clone();
    assert!(!update_transaction_status(&mut t, TransactionStatus::Pending, None, None));
    assert!(!update_transaction_status(&mut t, TransactionStatus::Confirmed, None, None));
    assert_eq!(t, before);
}
