//! Periodic and on-request observation of the stored vaults: snapshots,
//! reconciliation, announcements and a heuristic for unusual activity. Each
//! function takes what the store returned and gives back what is to be stored
//! or published.

use vstd::prelude::*;
use crate::errors::VaultServiceError;
use crate::database::{calculate_tvl, fleet_of, sums_fit};
use crate::identity::new_id;
use crate::ledger;
use crate::models::{
    BalanceSnapshot, SnapshotType, TransactionDocument, TvlStats, VaultDocument, WsMessage,
};
use crate::program::state::CollateralVault;
use crate::time::now;
use crate::vault_manager::is_balance_update;

verus! {

/// Whether the vault's books balance: `total == locked + available`.
pub fn validate_vault_balance(vault: &VaultDocument) -> (r: bool)
    ensures
        r == ledger::consistent(vault@),
{
    match vault.locked_balance.checked_add(vault.available_balance) {
        Some(sum) => sum == vault.total_balance,
        None => false,
    }
}

/// The vaults whose books do not balance.
pub open spec fn unbalanced() -> spec_fn(VaultDocument) -> bool {
    |vault: VaultDocument| !ledger::consistent(vault@)
}

/// `m` is the alert for a vault whose books do not balance.
pub open spec fn is_discrepancy_alert(m: WsMessage, vault: Seq<char>) -> bool {
    m matches WsMessage::Error { message } && message@ == "Balance discrepancy in vault "@ + vault
}

/// Checks every vault's books and returns one alert for each vault whose
/// books do not balance, in the order of the vaults. Nothing is corrected.
pub fn reconcile_balances(vaults: &Vec<VaultDocument>) -> (alerts: Vec<WsMessage>)
    ensures
        alerts@.len() == vaults@.filter(unbalanced()).len(),
        forall|k: int|
            0 <= k < alerts@.len() ==> is_discrepancy_alert(
                #[trigger] alerts@[k],
                vaults@.filter(unbalanced())[k].id@,
            ),
{
    let mut alerts: Vec<WsMessage> = Vec::new();
    let mut i: usize = 0;
    proof {
        assert(vaults@.take(0) =~= Seq::<VaultDocument>::empty());
        vaults@.take(0).lemma_filter_len(unbalanced());
    }
    while i < vaults.len()
        invariant
            i <= vaults.len(),
            alerts@.len() == vaults@.take(i as int).filter(unbalanced()).len(),
            forall|k: int|
                0 <= k < alerts@.len() ==> is_discrepancy_alert(
                    #[trigger] alerts@[k],
                    vaults@.take(i as int).filter(unbalanced())[k].id@,
                ),
        decreases vaults.len() - i,
    {
        let vault = &vaults[i];
        proof {
            vaults@.take(i as int).lemma_filter_push(*vault, unbalanced());
            assert(vaults@.take(i as int).push(*vault) =~= vaults@.take(i as int + 1));
        }
        if !validate_vault_balance(vault) {
            let message = String::from_str("Balance discrepancy in vault ").concat(
                vault.id.as_str(),
            );
            alerts.push(WsMessage::Error { message });
        }
        i += 1;
    }
    proof {
        assert(vaults@.take(i as int) =~= vaults@);
    }
    alerts
}

/// The mirror holds the same three balances as the settlement program's
/// account.
pub open spec fn mirrors(vault: VaultDocument, account: CollateralVault) -> bool {
    &&& vault.total_balance == account.total_balance
    &&& vault.locked_balance == account.locked_balance
    &&& vault.available_balance == account.available_balance
}

/// `m` is the alert for a vault that has drifted from the settlement program.
pub open spec fn is_drift_alert(m: WsMessage, vault: Seq<char>) -> bool {
    m matches WsMessage::Error { message } && message@ == "Balance drift in vault "@ + vault
}

/// Compares a stored vault with the settlement program's account for it. Any
/// difference in one of the three balances gives an alert; the stored vault
/// is not corrected.
pub fn detect_drift(vault: &VaultDocument, account: &CollateralVault) -> (alert: Option<WsMessage>)
    ensures
        mirrors(*vault, *account) ==> alert is None,
        !mirrors(*vault, *account) ==> (alert matches Some(m) && is_drift_alert(m, vault.id@)),
{
    if vault.total_balance == account.total_balance && vault.locked_balance
        == account.locked_balance && vault.available_balance == account.available_balance {
        None
    } else {
        let message = String::from_str("Balance drift in vault ").concat(vault.id.as_str());
        Some(WsMessage::Error { message })
    }
}

/// `s` holds the three balances of `vault` under its address, as a snapshot
/// of kind `kind`.
pub open spec fn pictures(s: BalanceSnapshot, vault: VaultDocument, kind: SnapshotType) -> bool {
    &&& s.vault@ == vault.id@
    &&& s.total_balance == vault.total_balance
    &&& s.locked_balance == vault.locked_balance
    &&& s.available_balance == vault.available_balance
    &&& s.snapshot_type == kind
}

/// One snapshot of kind `kind` per vault, in the order of the vaults, each
/// with a fresh identifier and the time it was taken.
fn snapshot_all(vaults: &Vec<VaultDocument>, kind: SnapshotType) -> (snapshots: Vec<BalanceSnapshot>)
    ensures
        snapshots@.len() == vaults@.len(),
        forall|k: int|
            0 <= k < vaults@.len() ==> pictures(#[trigger] snapshots@[k], vaults@[k], kind),
{
    let mut snapshots: Vec<BalanceSnapshot> = Vec::new();
    let mut i: usize = 0;
    while i < vaults.len()
        invariant
            i <= vaults.len(),
            snapshots@.len() == i,
            forall|k: int| 0 <= k < i ==> pictures(#[trigger] snapshots@[k], vaults@[k], kind),
        decreases vaults.len() - i,
    {
        let vault = &vaults[i];
        snapshots.push(
            BalanceSnapshot {
                id: new_id(),
                vault: vault.id.clone(),
                total_balance: vault.total_balance,
                locked_balance: vault.locked_balance,
                available_balance: vault.available_balance,
                timestamp: now(),
                snapshot_type: kind,
            },
        );
        i += 1;
    }
    snapshots
}

/// The hourly snapshots: one per vault, in the order of the vaults.
pub fn create_hourly_snapshots(vaults: &Vec<VaultDocument>) -> (snapshots: Vec<BalanceSnapshot>)
    ensures
        snapshots@.len() == vaults@.len(),
        forall|k: int|
            0 <= k < vaults@.len() ==> pictures(
                #[trigger] snapshots@[k],
                vaults@[k],
                SnapshotType::Hourly,
            ),
{
    snapshot_all(vaults, SnapshotType::Hourly)
}

/// The daily snapshots: one per vault, in the order of the vaults.
pub fn create_daily_snapshots(vaults: &Vec<VaultDocument>) -> (snapshots: Vec<BalanceSnapshot>)
    ensures
        snapshots@.len() == vaults@.len(),
        forall|k: int|
            0 <= k < vaults@.len() ==> pictures(
                #[trigger] snapshots@[k],
                vaults@[k],
                SnapshotType::Daily,
            ),
{
    snapshot_all(vaults, SnapshotType::Daily)
}

/// The announcement of the present balances of the vault stored under
/// `vault_pubkey`, where `vault` is what the store holds there.
pub fn monitor_vault(vault: Option<&VaultDocument>, vault_pubkey: &str) -> (r: Result<
    WsMessage,
    VaultServiceError,
>)
    ensures
        vault matches Some(doc) ==> (r matches Ok(m) && is_balance_update(m, *doc)),
        vault is None ==> (r matches Err(VaultServiceError::VaultNotFound(text)) && text@
            == vault_pubkey@),
{
    match vault {
        Some(doc) => Ok(
            WsMessage::BalanceUpdate {
                vault: doc.id.clone(),
                total_balance: doc.total_balance,
                locked_balance: doc.locked_balance,
                available_balance: doc.available_balance,
            },
        ),
        None => Err(VaultServiceError::VaultNotFound(String::from_str(vault_pubkey))),
    }
}

/// How many snapshots cover `days` days at one an hour.
pub open spec fn hours_in(days: i64) -> int {
    days * 24
}

/// How many snapshots to ask the store for to cover `days` days: 24 a day.
/// A number of days whose hours do not fit 64 bits is refused.
pub fn balance_stats_limit(days: i64) -> (r: Result<i64, VaultServiceError>)
    ensures
        i64::MIN <= hours_in(days) <= i64::MAX ==> r == Ok::<i64, VaultServiceError>(
            hours_in(days) as i64,
        ),
        !(i64::MIN <= hours_in(days) <= i64::MAX) ==> r == Err::<i64, VaultServiceError>(
            VaultServiceError::ArithmeticOverflow,
        ),
{
    match days.checked_mul(24) {
        Some(limit) => Ok(limit),
        None => Err(VaultServiceError::ArithmeticOverflow),
    }
}

/// The sum of the amounts of the entries.
pub open spec fn amount_sum(entries: Seq<TransactionDocument>) -> nat
    decreases entries.len(),
{
    if entries.len() == 0 {
        0
    } else {
        amount_sum(entries.drop_last()) + entries.last().amount as nat
    }
}

/// The average amount of the ten entries that come first, rounded down.
pub open spec fn recent_average(entries: Seq<TransactionDocument>) -> nat {
    amount_sum(entries.take(10)) / 10
}

/// The history, newest first, is unusual: it has more than ten entries, and
/// one of the first ten is larger than ten times their average.
pub open spec fn unusual(entries: Seq<TransactionDocument>) -> bool {
    entries.len() > 10 && exists|k: int|
        0 <= k < 10 && (#[trigger] entries[k]).amount > recent_average(entries) * 10
}

/// Whether a vault's history, given newest first, shows unusual activity: a
/// recent entry far larger than the recent average.
pub fn detect_unusual_activity(transactions: &Vec<TransactionDocument>) -> (r: bool)
    ensures
        r == unusual(transactions@),
{
    if transactions.len() <= 10 {
        return false;
    }
    let ghost recent = transactions@.take(10);
    let mut sum: u128 = 0;
    let mut i: usize = 0;
    while i < 10
        invariant
            i <= 10,
            transactions@.len() > 10,
            recent == transactions@.take(10),
            sum == amount_sum(recent.take(i as int)),
            sum <= i * u64::MAX,
        decreases 10 - i,
    {
        proof {
            assert(recent.take(i as int + 1).drop_last() =~= recent.take(i as int));
        }
        sum = sum + transactions[i].amount as u128;
        i += 1;
    }
    proof {
        assert(recent.take(10) =~= recent);
    }
    let threshold: u128 = (sum / 10) * 10;
    let mut k: usize = 0;
    while k < 10
        invariant
            k <= 10,
            transactions@.len() > 10,
            threshold == recent_average(transactions@) * 10,
            forall|j: int| 0 <= j < k ==> (#[trigger] transactions@[j]).amount <= threshold,
        decreases 10 - k,
    {
        if transactions[k].amount as u128 > threshold {
            return true;
        }
        k += 1;
    }
    false
}

/// `m` announces the fleet totals of `stats`.
pub open spec fn is_tvl_update(m: WsMessage, stats: TvlStats) -> bool {
    m == (WsMessage::TvlUpdate { total_tvl: stats.total_tvl, vault_count: stats.vault_count })
}

/// Computes the fleet statistics and the announcement of them. Where the
/// sums fit 64 bits, both come back, and the record is what `calculate_tvl`
/// gives; else the overflow error.
pub fn update_tvl(vaults: &Vec<VaultDocument>) -> (r: Result<(TvlStats, WsMessage), VaultServiceError>)
    ensures
        sums_fit(fleet_of(vaults@)) ==> (r matches Ok(pair) && is_tvl_update(pair.1, pair.0)
            && exists|id: Seq<char>, now: crate::time::Timestamp|
            crate::database::tvl_computed(Ok(pair.0), vaults@, id, now)),
        !sums_fit(fleet_of(vaults@)) ==> r == Err::<(TvlStats, WsMessage), VaultServiceError>(
            VaultServiceError::ArithmeticOverflow,
        ),
{
    match calculate_tvl(vaults) {
        Ok(stats) => {
            let event = WsMessage::TvlUpdate {
                total_tvl: stats.total_tvl,
                vault_count: stats.vault_count,
            };
            Ok((stats, event))
        },
        Err(e) => Err(e),
    }
}

} // verus!
