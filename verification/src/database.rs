//! What the ledger computes from the store's records and for them: the fleet
//! statistics and the one change a journal entry allows.

use vstd::prelude::*;
use crate::errors::VaultServiceError;
use crate::identity::new_id;
use crate::ledger::{
    lemma_sum_grows, lemma_sum_next, sum_of, total_available, total_locked, total_value,
    Balances, Field,
};
use crate::models::{AuditLog, TransactionDocument, TransactionStatus, TvlStats, VaultDocument};
use crate::time::{now, text_view, Timestamp};

verus! {

/// The balances of the stored vaults, in their order.
pub open spec fn fleet_of(vaults: Seq<VaultDocument>) -> Seq<Balances> {
    vaults.map_values(|vault: VaultDocument| vault@)
}

/// The three sums fit 64 bits.
pub open spec fn sums_fit(fleet: Seq<Balances>) -> bool {
    &&& total_value(fleet) <= u64::MAX
    &&& total_locked(fleet) <= u64::MAX
    &&& total_available(fleet) <= u64::MAX
}

/// `r` is the statistics record of the stored vaults `vaults`: the sums of
/// the three balances and the number of vaults, or an overflow where one of
/// the sums does not fit 64 bits.
pub open spec fn tvl_computed(
    r: Result<TvlStats, VaultServiceError>,
    vaults: Seq<VaultDocument>,
    id: Seq<char>,
    now: Timestamp,
) -> bool {
    if sums_fit(fleet_of(vaults)) {
        &&& r matches Ok(stats)
        &&& stats.id@ == id
        &&& stats.total_tvl == total_value(fleet_of(vaults))
        &&& stats.total_locked == total_locked(fleet_of(vaults))
        &&& stats.total_available == total_available(fleet_of(vaults))
        &&& stats.vault_count == vaults.len()
        &&& stats.timestamp == now
    } else {
        r == Err::<TvlStats, VaultServiceError>(VaultServiceError::ArithmeticOverflow)
    }
}

/// Adds one vault's balance to a running sum, or reports that the sum over
/// all vaults cannot fit.
fn add_balance(sum: u64, balance: u64, Ghost(fleet): Ghost<Seq<Balances>>, Ghost(field): Ghost<
    Field,
>, Ghost(n): Ghost<int>) -> (r: Option<u64>)
    requires
        0 <= n < fleet.len(),
        sum == sum_of(fleet.take(n), field),
        balance == crate::ledger::field_of(fleet[n], field),
    ensures
        r matches Some(next) ==> next == sum_of(fleet.take(n + 1), field),
        r is None ==> sum_of(fleet, field) > u64::MAX,
{
    proof {
        lemma_sum_next(fleet, field, n);
        lemma_sum_grows(fleet, field, n + 1);
    }
    sum.checked_add(balance)
}

/// The statistics record of the stored vaults, with the given identifier and
/// time: a full scan that sums the three balances and counts the vaults.
pub fn calculate_tvl_with(vaults: &Vec<VaultDocument>, id: String, now: Timestamp) -> (r: Result<
    TvlStats,
    VaultServiceError,
>)
    ensures
        tvl_computed(r, vaults@, id@, now),
{
    let ghost fleet = fleet_of(vaults@);
    let mut total_tvl: u64 = 0;
    let mut total_locked: u64 = 0;
    let mut total_available: u64 = 0;
    let mut i: usize = 0;
    while i < vaults.len()
        invariant
            i <= vaults.len(),
            fleet == fleet_of(vaults@),
            total_tvl == sum_of(fleet.take(i as int), Field::Total),
            total_locked == sum_of(fleet.take(i as int), Field::Locked),
            total_available == sum_of(fleet.take(i as int), Field::Available),
        decreases vaults.len() - i,
    {
        let vault = &vaults[i];
        total_tvl = match add_balance(
            total_tvl,
            vault.total_balance,
            Ghost(fleet),
            Ghost(Field::Total),
            Ghost(i as int),
        ) {
            Some(sum) => sum,
            None => { return Err(VaultServiceError::ArithmeticOverflow); },
        };
        total_locked = match add_balance(
            total_locked,
            vault.locked_balance,
            Ghost(fleet),
            Ghost(Field::Locked),
            Ghost(i as int),
        ) {
            Some(sum) => sum,
            None => { return Err(VaultServiceError::ArithmeticOverflow); },
        };
        total_available = match add_balance(
            total_available,
            vault.available_balance,
            Ghost(fleet),
            Ghost(Field::Available),
            Ghost(i as int),
        ) {
            Some(sum) => sum,
            None => { return Err(VaultServiceError::ArithmeticOverflow); },
        };
        i += 1;
    }
    proof {
        assert(fleet.take(i as int) =~= fleet);
    }
    Ok(
        TvlStats {
            id,
            total_tvl,
            total_locked,
            total_available,
            vault_count: vaults.len() as u64,
            timestamp: now,
        },
    )
}

/// The statistics record of the stored vaults, with a fresh identifier and
/// the present time; everything else is as `calculate_tvl_with` says.
pub fn calculate_tvl(vaults: &Vec<VaultDocument>) -> (r: Result<TvlStats, VaultServiceError>)
    ensures
        exists|id: Seq<char>, now: Timestamp| tvl_computed(r, vaults@, id, now),
{
    let id = new_id();
    let at = now();
    let ghost drawn = id@;
    let r = calculate_tvl_with(vaults, id, at);
    assert(tvl_computed(r, vaults@, drawn, at));
    r
}

/// A journal entry may change once: from pending to confirmed or failed.
pub open spec fn may_become(from: TransactionStatus, to: TransactionStatus) -> bool {
    from == TransactionStatus::Pending && to != TransactionStatus::Pending
}

/// The text that stays or is replaced.
pub open spec fn replaced_text(old: Option<String>, new: Option<String>) -> Option<Seq<char>> {
    match new {
        Some(text) => Some(text@),
        None => text_view(old),
    }
}

/// Settles a pending journal entry as confirmed or failed, and with that
/// records the settlement reference and the error detail where one is given.
/// Any other change is refused and leaves the entry as it was. Returns
/// whether the entry changed.
pub fn update_transaction_status(
    transaction: &mut TransactionDocument,
    status: TransactionStatus,
    signature: Option<String>,
    error_message: Option<String>,
) -> (changed: bool)
    ensures
        changed == may_become(old(transaction).status, status),
        !changed ==> *final(transaction) == *old(transaction),
        changed ==> {
            &&& final(transaction).status == status
            &&& text_view(final(transaction).signature) == replaced_text(
                old(transaction).signature,
                signature,
            )
            &&& text_view(final(transaction).error_message) == replaced_text(
                old(transaction).error_message,
                error_message,
            )
            &&& final(transaction).id == old(transaction).id
            &&& final(transaction).vault == old(transaction).vault
            &&& final(transaction).transaction_type == old(transaction).transaction_type
            &&& final(transaction).amount == old(transaction).amount
            &&& final(transaction).timestamp == old(transaction).timestamp
            &&& final(transaction).from_vault == old(transaction).from_vault
            &&& final(transaction).to_vault == old(transaction).to_vault
        },
{
    let pending = match transaction.status {
        TransactionStatus::Pending => true,
        _ => false,
    };
    let settles = match status {
        TransactionStatus::Pending => false,
        _ => true,
    };
    if !pending || !settles {
        return false;
    }
    transaction.status = status;
    if signature.is_some() {
        transaction.signature = signature;
    }
    if error_message.is_some() {
        transaction.error_message = error_message;
    }
    true
}

/// No moment in the list is later than one that stands before it.
pub open spec fn newest_first(times: Seq<Timestamp>) -> bool {
    forall|i: int, j: int| 0 <= i < j < times.len() ==> !times[j].later_than(times[i])
}

/// Whether the moments are in order, the newest first.
pub fn is_newest_first(times: &Vec<Timestamp>) -> (r: bool)
    ensures
        r == newest_first(times@),
{
    if times.len() < 2 {
        return true;
    }
    let mut k: usize = 1;
    while k < times.len()
        invariant
            1 <= k <= times.len(),
            forall|i: int, j: int| 0 <= i < j < k ==> !times@[j].later_than(times@[i]),
        decreases times.len() - k,
    {
        if times[k].is_later_than(&times[k - 1]) {
            assert(times@[k as int].later_than(times@[k - 1]));
            return false;
        }
        assert forall|i: int, j: int| 0 <= i < j < k + 1 implies !times@[j].later_than(
            times@[i],
        ) by {
            if j == k && i < k - 1 {
                assert(!times@[k - 1].later_than(times@[i]));
            }
        }
        k += 1;
    }
    true
}

/// The times of the journal entries, in their order.
pub open spec fn entry_times(records: Seq<TransactionDocument>) -> Seq<Timestamp> {
    records.map_values(|record: TransactionDocument| record.timestamp)
}

/// The records are a history of `vault` as a caller may ask it of the store:
/// entries of that vault only, the newest first, no more than `limit`.
pub open spec fn is_history(records: Seq<TransactionDocument>, vault: Seq<char>, limit: i64) -> bool {
    &&& records.len() <= limit
    &&& forall|k: int| 0 <= k < records.len() ==> (#[trigger] records[k]).vault@ == vault
    &&& newest_first(entry_times(records))
}

/// What is said of an answer of the store that is no history.
pub open spec fn bad_history_text() -> Seq<char> {
    "store returned a malformed transaction history"@
}

/// Takes the store's answer to a history query for the vault `vault_pubkey`
/// with the bound `limit`, and hands it on if it is a history of that vault:
/// its entries only, the newest first, no more than `limit`. Any other answer
/// is a database error.
pub fn get_vault_transactions(
    records: Vec<TransactionDocument>,
    vault_pubkey: &str,
    limit: i64,
) -> (r: Result<Vec<TransactionDocument>, VaultServiceError>)
    ensures
        is_history(records@, vault_pubkey@, limit) ==> r == Ok::<
            Vec<TransactionDocument>,
            VaultServiceError,
        >(records),
        !is_history(records@, vault_pubkey@, limit) ==> (r matches Err(
            VaultServiceError::DatabaseError(text),
        ) && text@ == bad_history_text()),
{
    let vault = String::from_str(vault_pubkey);
    let mut times: Vec<Timestamp> = Vec::new();
    let mut fine = limit >= 0 && records.len() as u64 <= limit as u64;
    let mut k: usize = 0;
    while k < records.len()
        invariant
            k <= records.len(),
            vault@ == vault_pubkey@,
            times@ == entry_times(records@.take(k as int)),
            fine == (records@.len() <= limit && forall|i: int|
                0 <= i < k ==> (#[trigger] records@[i]).vault@ == vault_pubkey@),
        decreases records.len() - k,
    {
        if records[k].vault != vault {
            fine = false;
        }
        times.push(records[k].timestamp);
        assert(times@ =~= entry_times(records@.take(k as int + 1)));
        k += 1;
    }
    assert(records@.take(k as int) =~= records@);
    if fine && is_newest_first(&times) {
        Ok(records)
    } else {
        Err(
            VaultServiceError::DatabaseError(
                String::from_str("store returned a malformed transaction history"),
            ),
        )
    }
}

/// The times of the audit entries, in their order.
pub open spec fn audit_times(logs: Seq<AuditLog>) -> Seq<Timestamp> {
    logs.map_values(|log: AuditLog| log.timestamp)
}

/// The entries are a recent view of the audit trail: the newest first, no
/// more than `limit`.
pub open spec fn is_recent(logs: Seq<AuditLog>, limit: i64) -> bool {
    logs.len() <= limit && newest_first(audit_times(logs))
}

/// What is said of an answer of the store that is no recent view.
pub open spec fn bad_audit_text() -> Seq<char> {
    "store returned a malformed audit trail"@
}

/// Takes the store's answer to a query for the most recent audit entries
/// with the bound `limit`, and hands it on if its entries come the newest
/// first and are no more than `limit`. Any other answer is a database error.
pub fn get_recent_audit_logs(logs: Vec<AuditLog>, limit: i64) -> (r: Result<
    Vec<AuditLog>,
    VaultServiceError,
>)
    ensures
        is_recent(logs@, limit) ==> r == Ok::<Vec<AuditLog>, VaultServiceError>(logs),
        !is_recent(logs@, limit) ==> (r matches Err(VaultServiceError::DatabaseError(text))
            && text@ == bad_audit_text()),
{
    let mut times: Vec<Timestamp> = Vec::new();
    let mut k: usize = 0;
    while k < logs.len()
        invariant
            k <= logs.len(),
            times@ == audit_times(logs@.take(k as int)),
        decreases logs.len() - k,
    {
        times.push(logs[k].timestamp);
        assert(times@ =~= audit_times(logs@.take(k as int + 1)));
        k += 1;
    }
    assert(logs@.take(k as int) =~= logs@);
    if limit >= 0 && logs.len() as u64 <= limit as u64 && is_newest_first(&times) {
        Ok(logs)
    } else {
        Err(
            VaultServiceError::DatabaseError(
                String::from_str("store returned a malformed audit trail"),
            ),
        )
    }
}

} // verus!
