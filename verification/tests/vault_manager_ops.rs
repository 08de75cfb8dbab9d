use collateral_ledger::errors::VaultServiceError;
use collateral_ledger::models::{
    AuditLog, BalanceSnapshot, SnapshotType, TransactionDocument, TransactionStatus,
    TransactionType, VaultBalanceResponse, VaultDocument, VaultStatus, WsMessage,
};
use collateral_ledger::time::Timestamp;
use collateral_ledger::vault_manager::{LedgerUpdate, Stamp, VaultManager};

fn at(secs: i64) -> Timestamp {
    Timestamp { secs, nanos: 5 }
}

fn stamp(n: u8, secs: i64) -> Stamp {
    Stamp { entry_id: format!("entry-{n}"), snapshot_id: format!("snap-{n}"), now: at(secs) }
}

fn vault(total: u64, locked: u64, available: u64) -> VaultDocument {
    VaultDocument {
        id: "vault-1".to_string(),
        owner: "owner-1".to_string(),
        token_account: "tokens-1".to_string(),
        total_balance: total,
        locked_balance: locked,
        available_balance: available,
        total_deposited: 0,
        total_withdrawn: 0,
        created_at: at(1),
        last_updated: at(1),
        bump: 9,
        status: VaultStatus::Active,
    }
}

fn balances(v: &VaultDocument) -> (u64, u64, u64) {
    (v.total_balance, v.locked_balance, v.available_balance)
}

#[test]
fn a_deposit_is_journalled_snapshotted_and_announced() {
    let update =
        VaultManager::record_deposit_with(Some(vault(0, 0, 0)), "vault-1", 1000, "sig-1", stamp(1, 50))
            .unwrap();
    let mut expected = vault(1000, 0, 1000);
    expected.total_deposited = 1000;
    expected.last_updated = at(50);
    assert_eq!(
        update,
        LedgerUpdate {
            vault: expected,
            transaction: TransactionDocument {
                id: "entry-1".to_string(),
                vault: "vault-1".to_string(),
                transaction_type: TransactionType::Deposit,
                amount: 1000,
                signature: Some("sig-1".to_string()),
                timestamp: at(50),
                from_vault: None,
                to_vault: None,
                status: TransactionStatus::Confirmed,
                error_message: None,
            },
            snapshot: Some(BalanceSnapshot {
                id: "snap-1".to_string(),
                vault: "vault-1".to_string(),
                total_balance: 1000,
                locked_balance: 0,
                available_balance: 1000,
                timestamp: at(50),
                snapshot_type: SnapshotType::OnDemand,
            }),
            event: WsMessage::BalanceUpdate {
                vault: "vault-1".to_string(),
                total_balance: 1000,
                locked_balance: 0,
                available_balance: 1000,
            },
        }
    );
}

#[test]
fn the_ledger_scenario() {
    let u = VaultManager::record_deposit_with(Some(vault(0, 0, 0)), "vault-1", 1000, "s", stamp(1, 2))
        .unwrap();
    assert_eq!(balances(&u.vault), (1000, 0, 1000));

    let u = VaultManager::lock_collateral_with(Some(u.vault), "vault-1", 300, stamp(2, 3)).unwrap();
    assert_eq!(balances(&u.vault), (1000, 300, 700));
    assert_eq!(u.snapshot, None);
    assert_eq!(u.transaction.transaction_type, TransactionType::Lock);
    assert_eq!(u.transaction.signature, None);
    assert_eq!(u.transaction.status, TransactionStatus::Confirmed);

    let u = VaultManager::record_withdrawal_with(Some(u.vault), "vault-1", 700, "s2", stamp(3, 4))
        .unwrap();
    assert_eq!(balances(&u.vault), (300, 300, 0));
    assert_eq!((u.vault.total_deposited, u.vault.total_withdrawn), (1000, 700));
    assert_eq!(u.transaction.transaction_type, TransactionType::Withdrawal);
    assert_eq!(u.snapshot.as_ref().map(|s| s.total_balance), Some(300));
    assert_eq!(u.vault.last_updated, at(4));

    let kept = u.vault.clone();
    assert_eq!(
        VaultManager::record_withdrawal_with(Some(u.vault), "vault-1", 1, "s3", stamp(4, 5)),
        Err(VaultServiceError::InsufficientBalance(0, 1))
    );
    assert_eq!(balances(&kept), (300, 300, 0));
}

#[test]
fn unlock_of_more_than_is_locked_is_refused() {
    assert_eq!(
        VaultManager::unlock_collateral_with(Some(vault(300, 300, 0)), "vault-1", 400, stamp(1, 2)),
        Err(VaultServiceError::InvalidUnlockAmount)
    );
    let u = VaultManager::unlock_collateral_with(Some(vault(300, 300, 0)), "vault-1", 300, stamp(1, 2))
        .unwrap();
    assert_eq!(balances(&u.vault), (300, 0, 300));
    assert_eq!(u.transaction.transaction_type, TransactionType::Unlock);
    assert_eq!(u.snapshot, None);
}

#[test]
fn lock_of_more_than_is_available_is_refused() {
    assert_eq!(
        VaultManager::lock_collateral_with(Some(vault(1000, 300, 700)), "vault-1", 701, stamp(1, 2)),
        Err(VaultServiceError::InsufficientBalanceToLock)
    );
}

#[test]
fn a_zero_amount_is_refused_before_the_vault_is_looked_at() {
    let zero = VaultServiceError::InvalidAmount("amount must be greater than zero".to_string());
    assert_eq!(VaultManager::record_deposit_with(None, "v", 0, "s", stamp(1, 2)), Err(zero.clone()));
    assert_eq!(
        VaultManager::record_withdrawal_with(Some(vault(5, 0, 5)), "v", 0, "s", stamp(1, 2)),
        Err(zero.clone())
    );
    assert_eq!(VaultManager::lock_collateral_with(None, "v", 0, stamp(1, 2)), Err(zero.clone()));
    assert_eq!(
        VaultManager::unlock_collateral_with(Some(vault(5, 5, 0)), "v", 0, stamp(1, 2)),
        Err(zero)
    );
}

#[test]
fn a_vault_that_is_not_there_is_not_found() {
    let missing = VaultServiceError::VaultNotFound("ghost".to_string());
    assert_eq!(
        VaultManager::record_deposit_with(None, "ghost", 1, "s", stamp(1, 2)),
        Err(missing.clone())
    );
    assert_eq!(
        VaultManager::record_withdrawal_with(None, "ghost", 1, "s", stamp(1, 2)),
        Err(missing.clone())
    );
    assert_eq!(VaultManager::lock_collateral_with(None, "ghost", 1, stamp(1, 2)), Err(missing.clone()));
    assert_eq!(
        VaultManager::unlock_collateral_with(None, "ghost", 1, stamp(1, 2)),
        Err(missing.clone())
    );
    assert_eq!(VaultManager::get_vault_balance(None, "ghost"), Err(missing.clone()));
    assert_eq!(VaultManager::get_vault_by_owner(None, "ghost"), Err(missing.clone()));
    assert_eq!(
        VaultManager::create_snapshot(None, "ghost", SnapshotType::Daily, stamp(1, 2)),
        Err(missing)
    );
}

#[test]
fn overflow_and_underflow_are_errors_of_their_own() {
    assert_eq!(
        VaultManager::record_deposit_with(Some(vault(u64::MAX, 0, u64::MAX)), "v", 1, "s", stamp(1, 2)),
        Err(VaultServiceError::ArithmeticOverflow)
    );
    assert_eq!(
        VaultManager::record_withdrawal_with(Some(vault(5, 0, 10)), "v", 8, "s", stamp(1, 2)),
        Err(VaultServiceError::ArithmeticUnderflow)
    );
    let mut spent = vault(10, 0, 10);
    spent.total_withdrawn = u64::MAX;
    assert_eq!(
        VaultManager::record_withdrawal_with(Some(spent), "v", 1, "s", stamp(1, 2)),
        Err(VaultServiceError::ArithmeticOverflow)
    );
    assert_eq!(
        VaultManager::lock_collateral_with(Some(vault(u64::MAX, u64::MAX, 1)), "v", 1, stamp(1, 2)),
        Err(VaultServiceError::ArithmeticOverflow)
    );
    assert_eq!(
        VaultManager::unlock_collateral_with(Some(vault(u64::MAX, 1, u64::MAX)), "v", 1, stamp(1, 2)),
        Err(VaultServiceError::ArithmeticOverflow)
    );
}

#[test]
fn unbalanced_books_are_never_written_back() {
    assert_eq!(
        VaultManager::record_deposit_with(Some(vault(1000, 300, 600)), "v", 10, "s", stamp(1, 2)),
        Err(VaultServiceError::InvariantViolation)
    );
    assert_eq!(
        VaultManager::lock_collateral_with(Some(vault(1000, 300, 600)), "v", 10, stamp(1, 2)),
        Err(VaultServiceError::InvariantViolation)
    );
}

#[test]
fn both_orders_of_a_deposit_and_a_withdrawal_give_the_same_vault() {
    let a = VaultManager::record_deposit_with(Some(vault(100, 0, 100)), "v", 100, "s", stamp(1, 2))
        .unwrap();
    assert_eq!(balances(&a.vault), (200, 0, 200));
    let a = VaultManager::record_withdrawal_with(Some(a.vault), "v", 50, "s", stamp(2, 3)).unwrap();
    let b = VaultManager::record_withdrawal_with(Some(vault(100, 0, 100)), "v", 50, "s", stamp(1, 2))
        .unwrap();
    assert_eq!(balances(&b.vault), (50, 0, 50));
    let b = VaultManager::record_deposit_with(Some(b.vault), "v", 100, "s", stamp(2, 3)).unwrap();
    assert_eq!(balances(&a.vault), (150, 0, 150));
    assert_eq!(a.vault, b.vault);
}

#[test]
fn fresh_records_carry_fresh_identifiers() {
    let u = VaultManager::record_deposit(Some(vault(0, 0, 0)), "vault-1", 7, "sig").unwrap();
    assert_eq!(balances(&u.vault), (7, 0, 7));
    let snapshot = u.snapshot.unwrap();
    assert_eq!(u.transaction.id.len(), 36);
    assert_eq!(snapshot.id.len(), 36);
    assert_ne!(u.transaction.id, snapshot.id);
    assert_eq!(u.transaction.id.matches('-').count(), 4);
    assert_eq!(u.transaction.timestamp, u.vault.last_updated);
    assert!(u.transaction.timestamp.secs > 1_600_000_000);
    assert!(u.transaction.timestamp.nanos < 1_000_000_000);
    let w = VaultManager::record_withdrawal(Some(u.vault), "vault-1", 7, "sig").unwrap();
    assert_eq!(balances(&w.vault), (0, 0, 0));
    assert_ne!(w.transaction.id, u.transaction.id);
    let l = VaultManager::lock_collateral(Some(vault(10, 0, 10)), "vault-1", 4).unwrap();
    assert_eq!(balances(&l.vault), (10, 4, 6));
    let n = VaultManager::unlock_collateral(Some(l.vault), "vault-1", 4).unwrap();
    assert_eq!(balances(&n.vault), (10, 0, 10));
    let first = Stamp::fresh();
    let second = Stamp::fresh();
    assert_ne!(first.entry_id, second.entry_id);
    assert!(!first.now.is_later_than(&second.now));
}

#[test]
fn reading_a_balance_twice_gives_the_same_answer() {
    let mut v = vault(1000, 300, 700);
    v.total_deposited = 1200;
    v.total_withdrawn = 200;
    let first = VaultManager::get_vault_balance(Some(&v), "vault-1");
    let second = VaultManager::get_vault_balance(Some(&v), "vault-1");
    assert_eq!(first, second);
    assert_eq!(
        first,
        Ok(VaultBalanceResponse {
            vault: "vault-1".to_string(),
            owner: "owner-1".to_string(),
            total_balance: 1000,
            locked_balance: 300,
            available_balance: 700,
            total_deposited: 1200,
            total_withdrawn: 200,
        })
    );
    assert_eq!(VaultManager::get_vault_by_owner(Some(&v), "owner-1"), first);
    assert_eq!(v, {
        let mut same = vault(1000, 300, 700);
        same.total_deposited = 1200;
        same.total_withdrawn = 200;
        same
    });
}

#[test]
fn a_snapshot_copies_the_three_balances() {
    assert_eq!(
        VaultManager::create_snapshot(
            Some(&vault(1000, 300, 700)),
            "vault-1",
            SnapshotType::Hourly,
            stamp(3, 60)
        ),
        Ok(BalanceSnapshot {
            id: "snap-3".to_string(),
            vault: "vault-1".to_string(),
            total_balance: 1000,
            locked_balance: 300,
            available_balance: 700,
            timestamp: at(60),
            snapshot_type: SnapshotType::Hourly,
        })
    );
}

#[test]
fn an_audit_entry_holds_what_it_is_given() {
    let details = vec![("vault".to_string(), "vault-1".to_string())];
    assert_eq!(
        VaultManager::log_audit(
            Some("vault-1".to_string()),
            None,
            "initialize_vault".to_string(),
            details.clone(),
            true,
            stamp(4, 70)
        ),
        AuditLog {
            id: "entry-4".to_string(),
            vault: Some("vault-1".to_string()),
            user: None,
            action: "initialize_vault".to_string(),
            details,
            ip_address: None,
            timestamp: at(70),
            success: true,
        }
    );
}

#[test]
fn a_transfer_moves_the_total_and_is_journalled_once() {
    let mut to = vault(200, 0, 200);
    to.id = "vault-2".to_string();
    // The source holds 50 that neither its locked nor its available balance
    // accounts for; moving exactly that leaves both vaults balanced.
    let update = VaultManager::transfer_collateral_with(
        Some(vault(1050, 300, 700)),
        Some(to.clone()),
        "vault-1",
        "vault-2",
        50,
        stamp(7, 90),
    )
    .unwrap();
    let mut from_after = vault(1000, 300, 700);
    from_after.last_updated = at(90);
    let mut to_after = to.clone();
    to_after.total_balance = 250;
    to_after.available_balance = 250;
    to_after.last_updated = at(90);
    assert_eq!(update.from_vault, from_after);
    assert_eq!(update.to_vault, to_after);
    assert_eq!(update.from_vault.total_balance + update.to_vault.total_balance, 1050 + 200);
    assert_eq!(
        update.transaction,
        TransactionDocument {
            id: "entry-7".to_string(),
            vault: "vault-1".to_string(),
            transaction_type: TransactionType::Transfer,
            amount: 50,
            signature: None,
            timestamp: at(90),
            from_vault: Some("vault-1".to_string()),
            to_vault: Some("vault-2".to_string()),
            status: TransactionStatus::Confirmed,
            error_message: None,
        }
    );
    assert_eq!(
        update.events,
        vec![
            WsMessage::BalanceUpdate {
                vault: "vault-1".to_string(),
                total_balance: 1000,
                locked_balance: 300,
                available_balance: 700,
            },
            WsMessage::BalanceUpdate {
                vault: "vault-2".to_string(),
                total_balance: 250,
                locked_balance: 0,
                available_balance: 250,
            },
        ]
    );
}

#[test]
fn a_transfer_is_refused_for_each_of_its_reasons() {
    let from = vault(1000, 300, 700);
    let mut to = vault(200, 0, 200);
    to.id = "vault-2".to_string();
    let go = |f: Option<VaultDocument>, t: Option<VaultDocument>, a: &str, b: &str, n: u64| {
        VaultManager::transfer_collateral_with(f, t, a, b, n, stamp(1, 2))
    };
    assert_eq!(
        go(None, None, "a", "a", 0),
        Err(VaultServiceError::InvalidAmount("amount must be greater than zero".to_string()))
    );
    assert_eq!(
        go(Some(from.clone()), Some(from.clone()), "vault-1", "vault-1", 5),
        Err(VaultServiceError::InternalError("transfer needs two different vaults".to_string()))
    );
    assert_eq!(
        go(None, None, "a", "b", 5),
        Err(VaultServiceError::VaultNotFound("a".to_string()))
    );
    assert_eq!(
        go(Some(from.clone()), None, "a", "b", 5),
        Err(VaultServiceError::VaultNotFound("b".to_string()))
    );
    assert_eq!(
        go(Some(from.clone()), Some(to.clone()), "vault-1", "vault-2", 1001),
        Err(VaultServiceError::InsufficientTransferBalance)
    );
    assert_eq!(
        go(Some(from.clone()), Some(to.clone()), "vault-1", "vault-2", 50),
        Err(VaultServiceError::InvariantViolation)
    );
    let mut full = to.clone();
    full.total_balance = u64::MAX;
    full.available_balance = u64::MAX;
    assert_eq!(
        go(Some(from.clone()), Some(full), "vault-1", "vault-2", 1),
        Err(VaultServiceError::ArithmeticOverflow)
    );
    let fresh = VaultManager::transfer_collateral(
        Some(vault(1050, 300, 700)),
        Some(to),
        "vault-1",
        "vault-2",
        50,
    )
    .unwrap();
    assert_eq!(fresh.transaction.id.len(), 36);
    assert_eq!(balances(&fresh.from_vault), (1000, 300, 700));
    assert_eq!(balances(&fresh.to_vault), (250, 0, 250));
}
