//! The ledger engine of the service: it takes a vault as the store holds it,
//! applies one operation, and returns what the store must write and what
//! subscribers are told. It reads and writes no store itself.

use vstd::prelude::*;
use crate::config::Config;
use crate::errors::{validate_amount, VaultServiceError};
use crate::identity::new_id;
use crate::ledger;
use crate::ledger::Balances;
use crate::models::{
    AuditLog, BalanceSnapshot, SnapshotType, TransactionDocument, TransactionStatus,
    TransactionType, VaultBalanceResponse, VaultDocument, VaultStatus, WsMessage,
};
use crate::program::books_balance;
use crate::program::errors::VaultError;
use crate::pubkey::{
    address_outcome, derive_address, derived_address, key_outcome, key_text, parse_key,
    parsed_key, seed_bytes, show_key, ParsePubkeyError, Pubkey,
};
use crate::time::{now, text_view, Timestamp};

verus! {

/// The identifiers and the time that one operation's records carry.
#[derive(Debug, Clone, PartialEq, Eq)]
pub struct Stamp {
    pub entry_id: String,
    pub snapshot_id: String,
    pub now: Timestamp,
}

/// What one successful operation leaves to be done: the vault to write back,
/// the journal entry to append, the snapshot to store where the operation
/// calls for one, and the event to publish.
#[derive(Debug, Clone, PartialEq, Eq)]
pub struct LedgerUpdate {
    pub vault: VaultDocument,
    pub transaction: TransactionDocument,
    pub snapshot: Option<BalanceSnapshot>,
    pub event: WsMessage,
}

/// What one successful transfer leaves to be done: the two vaults to write
/// back, the journal entry to append, and the two events to publish, the
/// source's first.
#[derive(Debug, Clone, PartialEq, Eq)]
pub struct TransferUpdate {
    pub from_vault: VaultDocument,
    pub to_vault: VaultDocument,
    pub transaction: TransactionDocument,
    pub events: Vec<WsMessage>,
}

impl VaultDocument {
    /// The vault with other balances, touched at `now`.
    pub open spec fn with_balances(self, b: Balances, now: Timestamp) -> VaultDocument {
        VaultDocument {
            total_balance: b.total as u64,
            locked_balance: b.locked as u64,
            available_balance: b.available as u64,
            total_deposited: b.deposited as u64,
            total_withdrawn: b.withdrawn as u64,
            last_updated: now,
            ..self
        }
    }
}

/// `t` is the confirmed journal entry of an operation on `vault`.
pub open spec fn is_entry(
    t: TransactionDocument,
    id: Seq<char>,
    vault: Seq<char>,
    kind: TransactionType,
    amount: u64,
    signature: Option<Seq<char>>,
    now: Timestamp,
) -> bool {
    &&& t.id@ == id
    &&& t.vault@ == vault
    &&& t.transaction_type == kind
    &&& t.amount == amount
    &&& text_view(t.signature) == signature
    &&& t.timestamp == now
    &&& t.from_vault is None
    &&& t.to_vault is None
    &&& t.status == TransactionStatus::Confirmed
    &&& t.error_message is None
}

/// `s` is a snapshot of the three balances of `doc`, filed under `vault`.
pub open spec fn is_snapshot(
    s: BalanceSnapshot,
    id: Seq<char>,
    vault: Seq<char>,
    doc: VaultDocument,
    kind: SnapshotType,
    now: Timestamp,
) -> bool {
    &&& s.id@ == id
    &&& s.vault@ == vault
    &&& s.total_balance == doc.total_balance
    &&& s.locked_balance == doc.locked_balance
    &&& s.available_balance == doc.available_balance
    &&& s.timestamp == now
    &&& s.snapshot_type == kind
}

/// `e` announces the three balances of `doc`.
pub open spec fn is_balance_update(e: WsMessage, doc: VaultDocument) -> bool {
    e matches WsMessage::BalanceUpdate { vault, total_balance, locked_balance, available_balance }
        && vault@ == doc.id@ && total_balance == doc.total_balance && locked_balance
        == doc.locked_balance && available_balance == doc.available_balance
}

/// `r` refuses an operation for the fault `fault`.
pub open spec fn refused(
    r: Result<LedgerUpdate, VaultServiceError>,
    fault: VaultError,
    available: u64,
    requested: u64,
) -> bool {
    r matches Err(e) && e.reports(fault, available, requested)
}

/// `r` refuses an operation because no vault is stored under `vault`.
pub open spec fn not_found(r: Result<LedgerUpdate, VaultServiceError>, vault: Seq<char>) -> bool {
    r matches Err(VaultServiceError::VaultNotFound(text)) && text@ == vault
}

/// `r` is the result of an operation of kind `kind` on the stored vault
/// `before`, where the accounting model gives `outcome` for its balances:
/// on success the vault with the new balances, its journal entry, an
/// on-demand snapshot of the new balances if `snapshot` is set and none
/// otherwise, and the announcement of the new balances; on a fault the
/// service's error for it.
pub open spec fn settled(
    r: Result<LedgerUpdate, VaultServiceError>,
    before: VaultDocument,
    outcome: Result<Balances, VaultError>,
    vault: Seq<char>,
    kind: TransactionType,
    amount: u64,
    signature: Option<Seq<char>>,
    snapshot: bool,
    stamp: Stamp,
) -> bool {
    match outcome {
        Ok(b) => {
            &&& r matches Ok(u)
            &&& u.vault == before.with_balances(b, stamp.now)
            &&& is_entry(u.transaction, stamp.entry_id@, vault, kind, amount, signature, stamp.now)
            &&& snapshot ==> (u.snapshot matches Some(s) && is_snapshot(
                s,
                stamp.snapshot_id@,
                vault,
                u.vault,
                SnapshotType::OnDemand,
                stamp.now,
            ))
            &&& !snapshot ==> u.snapshot is None
            &&& is_balance_update(u.event, u.vault)
        },
        Err(fault) => refused(r, fault, before.available_balance, amount),
    }
}

/// `r` is the result of recording a deposit of `amount` into the stored vault
/// `vault`, confirmed under `signature`: a refusal of a zero amount, else of a
/// vault that is not there, else what the deposit of the accounting model
/// gives, with an on-demand snapshot.
pub open spec fn deposit_recorded(
    r: Result<LedgerUpdate, VaultServiceError>,
    vault: Option<VaultDocument>,
    vault_pubkey: Seq<char>,
    amount: u64,
    signature: Seq<char>,
    stamp: Stamp,
) -> bool {
    if amount == 0 {
        refused(r, VaultError::InvalidAmount, 0, 0)
    } else {
        match vault {
            None => not_found(r, vault_pubkey),
            Some(before) => settled(
                r,
                before,
                ledger::deposit(before@, amount as nat),
                vault_pubkey,
                TransactionType::Deposit,
                amount,
                Some(signature),
                true,
                stamp,
            ),
        }
    }
}

/// `r` is the result of recording a withdrawal of `amount` from the stored
/// vault `vault`, confirmed under `signature`: as for a deposit, with the
/// withdrawal of the accounting model.
pub open spec fn withdrawal_recorded(
    r: Result<LedgerUpdate, VaultServiceError>,
    vault: Option<VaultDocument>,
    vault_pubkey: Seq<char>,
    amount: u64,
    signature: Seq<char>,
    stamp: Stamp,
) -> bool {
    if amount == 0 {
        refused(r, VaultError::InvalidAmount, 0, 0)
    } else {
        match vault {
            None => not_found(r, vault_pubkey),
            Some(before) => settled(
                r,
                before,
                ledger::withdraw(before@, amount as nat),
                vault_pubkey,
                TransactionType::Withdrawal,
                amount,
                Some(signature),
                true,
                stamp,
            ),
        }
    }
}

/// `r` is the result of locking `amount` in the stored vault `vault`: a
/// refusal of a zero amount, else of a vault that is not there, else what the
/// lock of the accounting model gives, with no signature and no snapshot.
pub open spec fn lock_recorded(
    r: Result<LedgerUpdate, VaultServiceError>,
    vault: Option<VaultDocument>,
    vault_pubkey: Seq<char>,
    amount: u64,
    stamp: Stamp,
) -> bool {
    if amount == 0 {
        refused(r, VaultError::InvalidAmount, 0, 0)
    } else {
        match vault {
            None => not_found(r, vault_pubkey),
            Some(before) => settled(
                r,
                before,
                ledger::lock(before@, amount as nat),
                vault_pubkey,
                TransactionType::Lock,
                amount,
                None,
                false,
                stamp,
            ),
        }
    }
}

/// `r` is the result of unlocking `amount` in the stored vault `vault`: as
/// for a lock, with the unlock of the accounting model.
pub open spec fn unlock_recorded(
    r: Result<LedgerUpdate, VaultServiceError>,
    vault: Option<VaultDocument>,
    vault_pubkey: Seq<char>,
    amount: u64,
    stamp: Stamp,
) -> bool {
    if amount == 0 {
        refused(r, VaultError::InvalidAmount, 0, 0)
    } else {
        match vault {
            None => not_found(r, vault_pubkey),
            Some(before) => settled(
                r,
                before,
                ledger::unlock(before@, amount as nat),
                vault_pubkey,
                TransactionType::Unlock,
                amount,
                None,
                false,
                stamp,
            ),
        }
    }
}

/// What is said of a transfer from a vault to itself.
pub open spec fn same_vault_text() -> Seq<char> {
    "transfer needs two different vaults"@
}

/// `t` is the confirmed journal entry of a transfer between two vaults, filed
/// under the source.
pub open spec fn is_transfer_entry(
    t: TransactionDocument,
    id: Seq<char>,
    from: Seq<char>,
    to: Seq<char>,
    amount: u64,
    now: Timestamp,
) -> bool {
    &&& t.id@ == id
    &&& t.vault@ == from
    &&& t.transaction_type == TransactionType::Transfer
    &&& t.amount == amount
    &&& t.signature is None
    &&& t.timestamp == now
    &&& text_view(t.from_vault) == Some(from)
    &&& text_view(t.to_vault) == Some(to)
    &&& t.status == TransactionStatus::Confirmed
    &&& t.error_message is None
}

/// `r` is the result of transferring `amount` from the vault stored under
/// `from_pubkey` to the one stored under `to_pubkey`: a refusal of a zero
/// amount, else of a transfer from a vault to itself, else of a vault that is
/// not there, the source's first, else what the transfer of the accounting
/// model gives for the two vaults: both with their new balances, one journal
/// entry and an announcement for each, or the service's error for the fault.
pub open spec fn transfer_recorded(
    r: Result<TransferUpdate, VaultServiceError>,
    from_vault: Option<VaultDocument>,
    to_vault: Option<VaultDocument>,
    from_pubkey: Seq<char>,
    to_pubkey: Seq<char>,
    amount: u64,
    stamp: Stamp,
) -> bool {
    if amount == 0 {
        r matches Err(e) && e.reports(VaultError::InvalidAmount, 0, 0)
    } else if from_pubkey == to_pubkey {
        r matches Err(VaultServiceError::InternalError(text)) && text@ == same_vault_text()
    } else {
        match (from_vault, to_vault) {
            (None, _) => r matches Err(VaultServiceError::VaultNotFound(text)) && text@
                == from_pubkey,
            (Some(_), None) => r matches Err(VaultServiceError::VaultNotFound(text)) && text@
                == to_pubkey,
            (Some(from), Some(to)) => match ledger::transfer(from@, to@, amount as nat) {
                Ok(moved) => {
                    &&& r matches Ok(u)
                    &&& u.from_vault == from.with_balances(moved.0, stamp.now)
                    &&& u.to_vault == to.with_balances(moved.1, stamp.now)
                    &&& is_transfer_entry(
                        u.transaction,
                        stamp.entry_id@,
                        from_pubkey,
                        to_pubkey,
                        amount,
                        stamp.now,
                    )
                    &&& u.events@.len() == 2
                    &&& is_balance_update(u.events@[0], u.from_vault)
                    &&& is_balance_update(u.events@[1], u.to_vault)
                },
                Err(fault) => r matches Err(e) && e.reports(fault, from.available_balance, amount),
            },
        }
    }
}

/// The seed that marks a vault's address: the bytes of `vault`.
pub open spec fn vault_tag() -> Seq<u8> {
    seq![118u8, 97u8, 117u8, 108u8, 116u8]
}

/// The seed that marks the authority's address: the bytes of `authority`.
pub open spec fn authority_tag() -> Seq<u8> {
    seq![97u8, 117u8, 116u8, 104u8, 111u8, 114u8, 105u8, 116u8, 121u8]
}

/// The seeds of the vault of the owner with these key bytes.
pub open spec fn vault_seeds(owner: Seq<u8>) -> Seq<Seq<u8>> {
    seq![vault_tag(), owner]
}

/// The seeds of the authority.
pub open spec fn authority_seeds() -> Seq<Seq<u8>> {
    seq![authority_tag()]
}

/// What a balance request is answered with, as plain values.
pub struct BalanceView {
    pub vault: Seq<char>,
    pub owner: Seq<char>,
    pub total_balance: u64,
    pub locked_balance: u64,
    pub available_balance: u64,
    pub total_deposited: u64,
    pub total_withdrawn: u64,
}

impl View for VaultBalanceResponse {
    type V = BalanceView;

    open spec fn view(&self) -> BalanceView {
        BalanceView {
            vault: self.vault@,
            owner: self.owner@,
            total_balance: self.total_balance,
            locked_balance: self.locked_balance,
            available_balance: self.available_balance,
            total_deposited: self.total_deposited,
            total_withdrawn: self.total_withdrawn,
        }
    }
}

/// The answer to a balance request for the stored vault `doc`.
pub open spec fn balance_of(doc: VaultDocument) -> BalanceView {
    BalanceView {
        vault: doc.id@,
        owner: doc.owner@,
        total_balance: doc.total_balance,
        locked_balance: doc.locked_balance,
        available_balance: doc.available_balance,
        total_deposited: doc.total_deposited,
        total_withdrawn: doc.total_withdrawn,
    }
}

/// `r` answers a balance request for `vault`, which was looked up by `key`.
pub open spec fn balance_read(
    r: Result<VaultBalanceResponse, VaultServiceError>,
    vault: Option<VaultDocument>,
    key: Seq<char>,
) -> bool {
    match vault {
        Some(doc) => r matches Ok(balance) && balance@ == balance_of(doc),
        None => r matches Err(VaultServiceError::VaultNotFound(text)) && text@ == key,
    }
}

/// `doc` is the record of a vault just created at `vault` for `owner`:
/// active, empty, with no token account and no bump yet.
pub open spec fn is_new_vault(
    doc: VaultDocument,
    vault: Seq<char>,
    owner: Seq<char>,
    now: Timestamp,
) -> bool {
    &&& doc.id@ == vault
    &&& doc.owner@ == owner
    &&& doc.token_account@ == Seq::<char>::empty()
    &&& doc.total_balance == 0
    &&& doc.locked_balance == 0
    &&& doc.available_balance == 0
    &&& doc.total_deposited == 0
    &&& doc.total_withdrawn == 0
    &&& doc.created_at == now
    &&& doc.last_updated == now
    &&& doc.bump == 0
    &&& doc.status == VaultStatus::Active
}

/// The details of an audit entry as plain values.
pub open spec fn details_view(details: Seq<(String, String)>) -> Seq<(Seq<char>, Seq<char>)> {
    details.map_values(|pair: (String, String)| (pair.0@, pair.1@))
}

/// `log` is the audit entry with these contents.
pub open spec fn is_audit(
    log: AuditLog,
    id: Seq<char>,
    vault: Option<Seq<char>>,
    user: Option<Seq<char>>,
    action: Seq<char>,
    details: Seq<(Seq<char>, Seq<char>)>,
    success: bool,
    now: Timestamp,
) -> bool {
    &&& log.id@ == id
    &&& text_view(log.vault) == vault
    &&& text_view(log.user) == user
    &&& log.action@ == action
    &&& details_view(log.details@) == details
    &&& log.ip_address is None
    &&& log.timestamp == now
    &&& log.success == success
}

/// What creating a vault leaves to be done: the record to insert, the audit
/// entry to append, and the new vault's address.
#[derive(Debug, Clone, PartialEq, Eq)]
pub struct VaultCreation {
    pub vault: VaultDocument,
    pub audit: AuditLog,
    pub vault_pubkey: String,
}

/// What is said where no address can be derived.
pub open spec fn no_address_text() -> Seq<char> {
    "Unable to find a viable program address bump seed"@
}

/// What is said where the owner has a vault already.
pub open spec fn vault_exists_text() -> Seq<char> {
    "Vault already exists"@
}

/// `r` is the result of creating a vault for the owner whose key reads
/// `owner`, at the address that reads `address`, where `existing` is what the
/// store holds at that address. Without an address, and where a vault is there
/// already, it is an error; else it is the new vault's record, the audit entry
/// of its creation, and the address.
pub open spec fn vault_opened(
    r: Result<VaultCreation, VaultServiceError>,
    existing: Option<VaultDocument>,
    address: Option<Seq<char>>,
    owner: Seq<char>,
    stamp: Stamp,
) -> bool {
    match address {
        None => r matches Err(VaultServiceError::InternalError(text)) && text@
            == no_address_text(),
        Some(vault) => if existing is Some {
            r matches Err(VaultServiceError::InternalError(text)) && text@ == vault_exists_text()
        } else {
            &&& r matches Ok(created)
            &&& created.vault_pubkey@ == vault
            &&& is_new_vault(created.vault, vault, owner, stamp.now)
            &&& is_audit(
                created.audit,
                stamp.entry_id@,
                Some(vault),
                Some(owner),
                "initialize_vault"@,
                seq![("vault"@, vault)],
                true,
                stamp.now,
            )
        },
    }
}

/// The text of the address that the program with key `program_id` has for
/// the vault of the owner with key `user`.
pub open spec fn vault_address_text(program_id: Seq<u8>, user: Seq<u8>) -> Option<Seq<char>> {
    match derived_address(vault_seeds(user), program_id) {
        Some(found) => Some(key_text(found.0)),
        None => None,
    }
}

/// `r` is the result of creating the vault of the owner with key `user` for
/// the program with key `program_id`, where `existing` is what the store holds
/// at the vault's address.
pub open spec fn vault_created(
    r: Result<VaultCreation, VaultServiceError>,
    program_id: Seq<u8>,
    existing: Option<VaultDocument>,
    user: Seq<u8>,
    stamp: Stamp,
) -> bool {
    vault_opened(r, existing, vault_address_text(program_id, user), key_text(user), stamp)
}

/// `r` is the engine for `config`, given what its two keys read as: the
/// program's key is looked at first.
pub open spec fn manager_built(
    r: Result<VaultManager, VaultServiceError>,
    config: Config,
    program_id: Result<Seq<u8>, ParsePubkeyError>,
    usdt_mint: Result<Seq<u8>, ParsePubkeyError>,
) -> bool {
    match program_id {
        Err(e) => r matches Err(VaultServiceError::ConfigError(text)) && text@
            == "Invalid program ID: "@ + e.message_text(),
        Ok(program) => match usdt_mint {
            Err(e) => r matches Err(VaultServiceError::ConfigError(text)) && text@
                == "Invalid USDT mint: "@ + e.message_text(),
            Ok(mint) => {
                &&& r matches Ok(manager)
                &&& manager.config == config
                &&& manager.program_id.bytes@ == program
                &&& manager.usdt_mint.bytes@ == mint
            },
        },
    }
}

/// Two answers to a balance request for the same stored vault are the same:
/// reading changes nothing, and what is read depends on the vault alone.
pub proof fn law_balance_reads_agree(
    vault: Option<VaultDocument>,
    key: Seq<char>,
    first: Result<VaultBalanceResponse, VaultServiceError>,
    second: Result<VaultBalanceResponse, VaultServiceError>,
)
    requires
        balance_read(first, vault, key),
        balance_read(second, vault, key),
    ensures
        first is Ok == second is Ok,
        first matches Ok(a) ==> (second matches Ok(b) && a@ == b@),
        first matches Err(VaultServiceError::VaultNotFound(a)) ==> (second matches Err(
            VaultServiceError::VaultNotFound(b),
        ) && a@ == b@),
{
}

/// The records of a successful operation whose new balances `after` holds.
fn settle(
    after: VaultDocument,
    vault_pubkey: &str,
    kind: TransactionType,
    amount: u64,
    signature: Option<String>,
    snapshot: bool,
    stamp: Stamp,
) -> (u: LedgerUpdate)
    ensures
        u.vault == (VaultDocument { last_updated: stamp.now, ..after }),
        is_entry(
            u.transaction,
            stamp.entry_id@,
            vault_pubkey@,
            kind,
            amount,
            text_view(signature),
            stamp.now,
        ),
        snapshot ==> (u.snapshot matches Some(s) && is_snapshot(
            s,
            stamp.snapshot_id@,
            vault_pubkey@,
            after,
            SnapshotType::OnDemand,
            stamp.now,
        )),
        !snapshot ==> u.snapshot is None,
        is_balance_update(u.event, after),
{
    let mut vault = after;
    vault.last_updated = stamp.now;
    let transaction = TransactionDocument {
        id: stamp.entry_id,
        vault: String::from_str(vault_pubkey),
        transaction_type: kind,
        amount,
        signature,
        timestamp: stamp.now,
        from_vault: None,
        to_vault: None,
        status: TransactionStatus::Confirmed,
        error_message: None,
    };
    let taken = if snapshot {
        Some(
            BalanceSnapshot {
                id: stamp.snapshot_id,
                vault: String::from_str(vault_pubkey),
                total_balance: vault.total_balance,
                locked_balance: vault.locked_balance,
                available_balance: vault.available_balance,
                timestamp: stamp.now,
                snapshot_type: SnapshotType::OnDemand,
            },
        )
    } else {
        None
    };
    let event = WsMessage::BalanceUpdate {
        vault: vault.id.clone(),
        total_balance: vault.total_balance,
        locked_balance: vault.locked_balance,
        available_balance: vault.available_balance,
    };
    LedgerUpdate { vault, transaction, snapshot: taken, event }
}

impl Stamp {
    /// Two fresh identifiers, each 36 characters long, and the present time.
    pub fn fresh() -> (stamp: Stamp)
        ensures
            stamp.entry_id@.len() == 36,
            stamp.snapshot_id@.len() == 36,
    {
        let entry_id = new_id();
        let snapshot_id = new_id();
        Stamp { entry_id, snapshot_id, now: now() }
    }
}

/// The engine, bound to one settlement program.
#[derive(Debug, Clone, PartialEq, Eq)]
pub struct VaultManager {
    pub config: Config,
    pub program_id: Pubkey,
    pub usdt_mint: Pubkey,
}

impl VaultManager {
    /// The engine for `config`, whose program and mint were read as
    /// `program_id` and `usdt_mint`. A text that is no key is a configuration
    /// error that names the setting; the program's comes first.
    pub fn from_keys(
        config: Config,
        program_id: Result<Pubkey, ParsePubkeyError>,
        usdt_mint: Result<Pubkey, ParsePubkeyError>,
    ) -> (r: Result<VaultManager, VaultServiceError>)
        ensures
            manager_built(r, config, key_outcome(program_id), key_outcome(usdt_mint)),
    {
        let program_id = match program_id {
            Ok(key) => key,
            Err(e) => {
                return Err(
                    VaultServiceError::ConfigError(
                        String::from_str("Invalid program ID: ").concat(e.message().as_str()),
                    ),
                );
            },
        };
        let usdt_mint = match usdt_mint {
            Ok(key) => key,
            Err(e) => {
                return Err(
                    VaultServiceError::ConfigError(
                        String::from_str("Invalid USDT mint: ").concat(e.message().as_str()),
                    ),
                );
            },
        };
        Ok(VaultManager { config, program_id, usdt_mint })
    }

    /// The engine for the program and the mint that `config` names, both
    /// read as keys.
    pub fn new(config: Config) -> (r: Result<VaultManager, VaultServiceError>)
        ensures
            manager_built(
                r,
                config,
                parsed_key(config.vault_program.program_id@),
                parsed_key(config.vault_program.usdt_mint@),
            ),
    {
        let program_id = parse_key(config.vault_program.program_id.as_str());
        let usdt_mint = parse_key(config.vault_program.usdt_mint.as_str());
        Self::from_keys(config, program_id, usdt_mint)
    }

    /// The address of the vault of `user` and its bump seed; `None` where the
    /// program has no valid address for that owner.
    pub fn derive_vault_pda(&self, user: &Pubkey) -> (r: Option<(Pubkey, u8)>)
        ensures
            address_outcome(r) == derived_address(vault_seeds(user.bytes@), self.program_id.bytes@),
    {
        let mut seeds: Vec<Vec<u8>> = Vec::new();
        seeds.push(vec![118u8, 97u8, 117u8, 108u8, 116u8]);
        seeds.push(user.to_seed());
        assert(seed_bytes(seeds@) =~= vault_seeds(user.bytes@));
        derive_address(&seeds, &self.program_id)
    }

    /// The authority's address and its bump seed; `None` where the program
    /// has no valid address for it.
    pub fn derive_authority_pda(&self) -> (r: Option<(Pubkey, u8)>)
        ensures
            address_outcome(r) == derived_address(authority_seeds(), self.program_id.bytes@),
    {
        let mut seeds: Vec<Vec<u8>> = Vec::new();
        seeds.push(vec![97u8, 117u8, 116u8, 104u8, 111u8, 114u8, 105u8, 116u8, 121u8]);
        assert(seed_bytes(seeds@) =~= authority_seeds());
        derive_address(&seeds, &self.program_id)
    }

    /// Creates a vault at the address that reads `vault_pubkey` for the owner
    /// whose key reads `owner`, with the audit entry's identifier and the time
    /// of `stamp`. `existing` is what the store holds at that address: an owner
    /// has one vault, so a vault that is there already is an error, and so is
    /// an owner for whom there is no address.
    pub fn open_vault(
        existing: Option<VaultDocument>,
        vault_pubkey: Option<String>,
        owner: String,
        stamp: Stamp,
    ) -> (r: Result<VaultCreation, VaultServiceError>)
        ensures
            vault_opened(r, existing, text_view(vault_pubkey), owner@, stamp),
    {
        let vault_pubkey = match vault_pubkey {
            Some(text) => text,
            None => {
                return Err(
                    VaultServiceError::InternalError(
                        String::from_str("Unable to find a viable program address bump seed"),
                    ),
                );
            },
        };
        if existing.is_some() {
            return Err(VaultServiceError::InternalError(String::from_str("Vault already exists")));
        }
        let vault = VaultDocument {
            id: vault_pubkey.clone(),
            owner: owner.clone(),
            token_account: String::new(),
            total_balance: 0,
            locked_balance: 0,
            available_balance: 0,
            total_deposited: 0,
            total_withdrawn: 0,
            created_at: stamp.now,
            last_updated: stamp.now,
            bump: 0,
            status: VaultStatus::Active,
        };
        let mut details: Vec<(String, String)> = Vec::new();
        details.push((String::from_str("vault"), vault_pubkey.clone()));
        assert(details_view(details@) =~= seq![("vault"@, vault_pubkey@)]);
        let audit = Self::log_audit(
            Some(vault_pubkey.clone()),
            Some(owner),
            String::from_str("initialize_vault"),
            details,
            true,
            stamp,
        );
        Ok(VaultCreation { vault, audit, vault_pubkey })
    }

    /// Creates the vault of `user`, with the audit entry's identifier and the
    /// time of `stamp`. `existing` is what the store holds at the address that
    /// `derive_vault_pda` gives for `user`.
    pub fn initialize_vault_with(
        &self,
        existing: Option<VaultDocument>,
        user_pubkey: &Pubkey,
        stamp: Stamp,
    ) -> (r: Result<VaultCreation, VaultServiceError>)
        ensures
            vault_created(r, self.program_id.bytes@, existing, user_pubkey.bytes@, stamp),
    {
        let vault_pubkey = match self.derive_vault_pda(user_pubkey) {
            Some(found) => Some(show_key(&found.0)),
            None => None,
        };
        Self::open_vault(existing, vault_pubkey, show_key(user_pubkey), stamp)
    }

    /// Creates the vault of `user`. The records carry a fresh identifier and
    /// the present time; everything else is as `initialize_vault_with` says.
    pub fn initialize_vault(&self, existing: Option<VaultDocument>, user_pubkey: &Pubkey) -> (r:
        Result<VaultCreation, VaultServiceError>)
        ensures
            exists|stamp: Stamp|
                vault_created(r, self.program_id.bytes@, existing, user_pubkey.bytes@, stamp),
    {
        let stamp = Stamp::fresh();
        let ghost drawn = stamp;
        let r = self.initialize_vault_with(existing, user_pubkey, stamp);
        assert(vault_created(r, self.program_id.bytes@, existing, user_pubkey.bytes@, drawn));
        r
    }

    /// The balances of the vault stored under `vault_pubkey`, where `vault` is
    /// what the store holds there.
    pub fn get_vault_balance(vault: Option<&VaultDocument>, vault_pubkey: &str) -> (r: Result<
        VaultBalanceResponse,
        VaultServiceError,
    >)
        ensures
            vault matches Some(doc) ==> balance_read(r, Some(*doc), vault_pubkey@),
            vault is None ==> balance_read(r, None, vault_pubkey@),
    {
        match vault {
            Some(doc) => Ok(
                VaultBalanceResponse {
                    vault: doc.id.clone(),
                    owner: doc.owner.clone(),
                    total_balance: doc.total_balance,
                    locked_balance: doc.locked_balance,
                    available_balance: doc.available_balance,
                    total_deposited: doc.total_deposited,
                    total_withdrawn: doc.total_withdrawn,
                },
            ),
            None => Err(VaultServiceError::VaultNotFound(String::from_str(vault_pubkey))),
        }
    }

    /// The balances of the vault of the owner `owner_pubkey`, where `vault` is
    /// what the store holds for that owner.
    pub fn get_vault_by_owner(vault: Option<&VaultDocument>, owner_pubkey: &str) -> (r: Result<
        VaultBalanceResponse,
        VaultServiceError,
    >)
        ensures
            vault matches Some(doc) ==> balance_read(r, Some(*doc), owner_pubkey@),
            vault is None ==> balance_read(r, None, owner_pubkey@),
    {
        Self::get_vault_balance(vault, owner_pubkey)
    }

    /// A snapshot of the vault stored under `vault_pubkey`, with the snapshot
    /// identifier and the time of `stamp`.
    pub fn create_snapshot(
        vault: Option<&VaultDocument>,
        vault_pubkey: &str,
        snapshot_type: SnapshotType,
        stamp: Stamp,
    ) -> (r: Result<BalanceSnapshot, VaultServiceError>)
        ensures
            vault matches Some(doc) ==> (r matches Ok(s) && is_snapshot(
                s,
                stamp.snapshot_id@,
                vault_pubkey@,
                *doc,
                snapshot_type,
                stamp.now,
            )),
            vault is None ==> (r matches Err(VaultServiceError::VaultNotFound(text)) && text@
                == vault_pubkey@),
    {
        match vault {
            Some(doc) => Ok(
                BalanceSnapshot {
                    id: stamp.snapshot_id,
                    vault: String::from_str(vault_pubkey),
                    total_balance: doc.total_balance,
                    locked_balance: doc.locked_balance,
                    available_balance: doc.available_balance,
                    timestamp: stamp.now,
                    snapshot_type,
                },
            ),
            None => Err(VaultServiceError::VaultNotFound(String::from_str(vault_pubkey))),
        }
    }

    /// The audit entry for an action, with the entry identifier and the time
    /// of `stamp`.
    pub fn log_audit(
        vault: Option<String>,
        user: Option<String>,
        action: String,
        details: Vec<(String, String)>,
        success: bool,
        stamp: Stamp,
    ) -> (log: AuditLog)
        ensures
            is_audit(
                log,
                stamp.entry_id@,
                text_view(vault),
                text_view(user),
                action@,
                details_view(details@),
                success,
                stamp.now,
            ),
    {
        AuditLog {
            id: stamp.entry_id,
            vault,
            user,
            action,
            details,
            ip_address: None,
            timestamp: stamp.now,
            success,
        }
    }

    /// Records a deposit that the settlement program has confirmed under
    /// `signature`, with the identifiers and the time of `stamp`.
    pub fn record_deposit_with(
        vault: Option<VaultDocument>,
        vault_pubkey: &str,
        amount: u64,
        signature: &str,
        stamp: Stamp,
    ) -> (r: Result<LedgerUpdate, VaultServiceError>)
        ensures
            deposit_recorded(r, vault, vault_pubkey@, amount, signature@, stamp),
    {
        match validate_amount(amount) {
            Ok(()) => {},
            Err(e) => { return Err(e); },
        }
        let mut doc = match vault {
            Some(doc) => doc,
            None => { return Err(VaultServiceError::VaultNotFound(String::from_str(vault_pubkey))); },
        };
        let total = match doc.total_balance.checked_add(amount) {
            Some(v) => v,
            None => { return Err(VaultServiceError::ArithmeticOverflow); },
        };
        let available = match doc.available_balance.checked_add(amount) {
            Some(v) => v,
            None => { return Err(VaultServiceError::ArithmeticOverflow); },
        };
        let deposited = match doc.total_deposited.checked_add(amount) {
            Some(v) => v,
            None => { return Err(VaultServiceError::ArithmeticOverflow); },
        };
        if !books_balance(total, doc.locked_balance, available) {
            return Err(VaultServiceError::InvariantViolation);
        }
        doc.total_balance = total;
        doc.available_balance = available;
        doc.total_deposited = deposited;
        Ok(
            settle(
                doc,
                vault_pubkey,
                TransactionType::Deposit,
                amount,
                Some(String::from_str(signature)),
                true,
                stamp,
            ),
        )
    }

    /// Records a deposit that the settlement program has confirmed under
    /// `signature`. The records carry fresh identifiers and the present time;
    /// everything else is as `record_deposit_with` says.
    pub fn record_deposit(
        vault: Option<VaultDocument>,
        vault_pubkey: &str,
        amount: u64,
        signature: &str,
    ) -> (r: Result<LedgerUpdate, VaultServiceError>)
        ensures
            exists|stamp: Stamp| deposit_recorded(r, vault, vault_pubkey@, amount, signature@, stamp),
    {
        let stamp = Stamp::fresh();
        let ghost drawn = stamp;
        let r = Self::record_deposit_with(vault, vault_pubkey, amount, signature, stamp);
        assert(deposit_recorded(r, vault, vault_pubkey@, amount, signature@, drawn));
        r
    }

    /// Records a withdrawal that the settlement program has confirmed under
    /// `signature`, with the identifiers and the time of `stamp`. Only the
    /// available balance decides whether the vault can pay.
    pub fn record_withdrawal_with(
        vault: Option<VaultDocument>,
        vault_pubkey: &str,
        amount: u64,
        signature: &str,
        stamp: Stamp,
    ) -> (r: Result<LedgerUpdate, VaultServiceError>)
        ensures
            withdrawal_recorded(r, vault, vault_pubkey@, amount, signature@, stamp),
    {
        match validate_amount(amount) {
            Ok(()) => {},
            Err(e) => { return Err(e); },
        }
        let mut doc = match vault {
            Some(doc) => doc,
            None => { return Err(VaultServiceError::VaultNotFound(String::from_str(vault_pubkey))); },
        };
        if doc.available_balance < amount {
            return Err(VaultServiceError::InsufficientBalance(doc.available_balance, amount));
        }
        let total = match doc.total_balance.checked_sub(amount) {
            Some(v) => v,
            None => { return Err(VaultServiceError::ArithmeticUnderflow); },
        };
        let available = match doc.available_balance.checked_sub(amount) {
            Some(v) => v,
            None => { return Err(VaultServiceError::ArithmeticUnderflow); },
        };
        let withdrawn = match doc.total_withdrawn.checked_add(amount) {
            Some(v) => v,
            None => { return Err(VaultServiceError::ArithmeticOverflow); },
        };
        if !books_balance(total, doc.locked_balance, available) {
            return Err(VaultServiceError::InvariantViolation);
        }
        doc.total_balance = total;
        doc.available_balance = available;
        doc.total_withdrawn = withdrawn;
        Ok(
            settle(
                doc,
                vault_pubkey,
                TransactionType::Withdrawal,
                amount,
                Some(String::from_str(signature)),
                true,
                stamp,
            ),
        )
    }

    /// Records a withdrawal that the settlement program has confirmed under
    /// `signature`. The records carry fresh identifiers and the present time;
    /// everything else is as `record_withdrawal_with` says.
    pub fn record_withdrawal(
        vault: Option<VaultDocument>,
        vault_pubkey: &str,
        amount: u64,
        signature: &str,
    ) -> (r: Result<LedgerUpdate, VaultServiceError>)
        ensures
            exists|stamp: Stamp|
                withdrawal_recorded(r, vault, vault_pubkey@, amount, signature@, stamp),
    {
        let stamp = Stamp::fresh();
        let ghost drawn = stamp;
        let r = Self::record_withdrawal_with(vault, vault_pubkey, amount, signature, stamp);
        assert(withdrawal_recorded(r, vault, vault_pubkey@, amount, signature@, drawn));
        r
    }

    /// Reserves `amount` of the vault's available balance for an open
    /// position, with the identifier and the time of `stamp`.
    pub fn lock_collateral_with(
        vault: Option<VaultDocument>,
        vault_pubkey: &str,
        amount: u64,
        stamp: Stamp,
    ) -> (r: Result<LedgerUpdate, VaultServiceError>)
        ensures
            lock_recorded(r, vault, vault_pubkey@, amount, stamp),
    {
        match validate_amount(amount) {
            Ok(()) => {},
            Err(e) => { return Err(e); },
        }
        let mut doc = match vault {
            Some(doc) => doc,
            None => { return Err(VaultServiceError::VaultNotFound(String::from_str(vault_pubkey))); },
        };
        if doc.available_balance < amount {
            return Err(VaultServiceError::InsufficientBalanceToLock);
        }
        let locked = match doc.locked_balance.checked_add(amount) {
            Some(v) => v,
            None => { return Err(VaultServiceError::ArithmeticOverflow); },
        };
        let available = match doc.available_balance.checked_sub(amount) {
            Some(v) => v,
            None => { return Err(VaultServiceError::ArithmeticUnderflow); },
        };
        if !books_balance(doc.total_balance, locked, available) {
            return Err(VaultServiceError::InvariantViolation);
        }
        doc.locked_balance = locked;
        doc.available_balance = available;
        Ok(settle(doc, vault_pubkey, TransactionType::Lock, amount, None, false, stamp))
    }

    /// Reserves `amount` of the vault's available balance for an open
    /// position. The journal entry carries a fresh identifier and the present
    /// time; everything else is as `lock_collateral_with` says.
    pub fn lock_collateral(vault: Option<VaultDocument>, vault_pubkey: &str, amount: u64) -> (r:
        Result<LedgerUpdate, VaultServiceError>)
        ensures
            exists|stamp: Stamp| lock_recorded(r, vault, vault_pubkey@, amount, stamp),
    {
        let stamp = Stamp::fresh();
        let ghost drawn = stamp;
        let r = Self::lock_collateral_with(vault, vault_pubkey, amount, stamp);
        assert(lock_recorded(r, vault, vault_pubkey@, amount, drawn));
        r
    }

    /// Releases `amount` of the vault's locked balance when a position is
    /// closed, with the identifier and the time of `stamp`.
    pub fn unlock_collateral_with(
        vault: Option<VaultDocument>,
        vault_pubkey: &str,
        amount: u64,
        stamp: Stamp,
    ) -> (r: Result<LedgerUpdate, VaultServiceError>)
        ensures
            unlock_recorded(r, vault, vault_pubkey@, amount, stamp),
    {
        match validate_amount(amount) {
            Ok(()) => {},
            Err(e) => { return Err(e); },
        }
        let mut doc = match vault {
            Some(doc) => doc,
            None => { return Err(VaultServiceError::VaultNotFound(String::from_str(vault_pubkey))); },
        };
        if doc.locked_balance < amount {
            return Err(VaultServiceError::InvalidUnlockAmount);
        }
        let locked = match doc.locked_balance.checked_sub(amount) {
            Some(v) => v,
            None => { return Err(VaultServiceError::ArithmeticUnderflow); },
        };
        let available = match doc.available_balance.checked_add(amount) {
            Some(v) => v,
            None => { return Err(VaultServiceError::ArithmeticOverflow); },
        };
        if !books_balance(doc.total_balance, locked, available) {
            return Err(VaultServiceError::InvariantViolation);
        }
        doc.locked_balance = locked;
        doc.available_balance = available;
        Ok(settle(doc, vault_pubkey, TransactionType::Unlock, amount, None, false, stamp))
    }

    /// Releases `amount` of the vault's locked balance when a position is
    /// closed. The journal entry carries a fresh identifier and the present
    /// time; everything else is as `unlock_collateral_with` says.
    pub fn unlock_collateral(vault: Option<VaultDocument>, vault_pubkey: &str, amount: u64) -> (r:
        Result<LedgerUpdate, VaultServiceError>)
        ensures
            exists|stamp: Stamp| unlock_recorded(r, vault, vault_pubkey@, amount, stamp),
    {
        let stamp = Stamp::fresh();
        let ghost drawn = stamp;
        let r = Self::unlock_collateral_with(vault, vault_pubkey, amount, stamp);
        assert(unlock_recorded(r, vault, vault_pubkey@, amount, drawn));
        r
    }

    /// Moves `amount` from the total of the vault stored under `from_pubkey`
    /// to the total and available balance of the one stored under
    /// `to_pubkey`, with the identifier and the time of `stamp`. The source's
    /// locked and available balances are not touched, so its books must
    /// balance after its total alone has shrunk; both vaults change, or
    /// neither does.
    pub fn transfer_collateral_with(
        from_vault: Option<VaultDocument>,
        to_vault: Option<VaultDocument>,
        from_pubkey: &str,
        to_pubkey: &str,
        amount: u64,
        stamp: Stamp,
    ) -> (r: Result<TransferUpdate, VaultServiceError>)
        ensures
            transfer_recorded(r, from_vault, to_vault, from_pubkey@, to_pubkey@, amount, stamp),
    {
        match validate_amount(amount) {
            Ok(()) => {},
            Err(e) => { return Err(e); },
        }
        let source = String::from_str(from_pubkey);
        let target = String::from_str(to_pubkey);
        if source == target {
            return Err(
                VaultServiceError::InternalError(
                    String::from_str("transfer needs two different vaults"),
                ),
            );
        }
        let mut from = match from_vault {
            Some(doc) => doc,
            None => { return Err(VaultServiceError::VaultNotFound(source)); },
        };
        let mut to = match to_vault {
            Some(doc) => doc,
            None => { return Err(VaultServiceError::VaultNotFound(target)); },
        };
        if from.total_balance < amount {
            return Err(VaultServiceError::InsufficientTransferBalance);
        }
        let from_total = match from.total_balance.checked_sub(amount) {
            Some(v) => v,
            None => { return Err(VaultServiceError::ArithmeticUnderflow); },
        };
        let to_total = match to.total_balance.checked_add(amount) {
            Some(v) => v,
            None => { return Err(VaultServiceError::ArithmeticOverflow); },
        };
        let to_available = match to.available_balance.checked_add(amount) {
            Some(v) => v,
            None => { return Err(VaultServiceError::ArithmeticOverflow); },
        };
        if !books_balance(from_total, from.locked_balance, from.available_balance)
            || !books_balance(to_total, to.locked_balance, to_available) {
            return Err(VaultServiceError::InvariantViolation);
        }
        from.total_balance = from_total;
        from.last_updated = stamp.now;
        to.total_balance = to_total;
        to.available_balance = to_available;
        to.last_updated = stamp.now;
        let transaction = TransactionDocument {
            id: stamp.entry_id,
            vault: source.clone(),
            transaction_type: TransactionType::Transfer,
            amount,
            signature: None,
            timestamp: stamp.now,
            from_vault: Some(source),
            to_vault: Some(target),
            status: TransactionStatus::Confirmed,
            error_message: None,
        };
        let mut events: Vec<WsMessage> = Vec::new();
        events.push(
            WsMessage::BalanceUpdate {
                vault: from.id.clone(),
                total_balance: from.total_balance,
                locked_balance: from.locked_balance,
                available_balance: from.available_balance,
            },
        );
        events.push(
            WsMessage::BalanceUpdate {
                vault: to.id.clone(),
                total_balance: to.total_balance,
                locked_balance: to.locked_balance,
                available_balance: to.available_balance,
            },
        );
        Ok(TransferUpdate { from_vault: from, to_vault: to, transaction, events })
    }

    /// Moves `amount` between two stored vaults. The journal entry carries a
    /// fresh identifier and the present time; everything else is as
    /// `transfer_collateral_with` says.
    pub fn transfer_collateral(
        from_vault: Option<VaultDocument>,
        to_vault: Option<VaultDocument>,
        from_pubkey: &str,
        to_pubkey: &str,
        amount: u64,
    ) -> (r: Result<TransferUpdate, VaultServiceError>)
        ensures
            exists|stamp: Stamp|
                transfer_recorded(
                    r,
                    from_vault,
                    to_vault,
                    from_pubkey@,
                    to_pubkey@,
                    amount,
                    stamp,
                ),
    {
        let stamp = Stamp::fresh();
        let ghost drawn = stamp;
        let r = Self::transfer_collateral_with(
            from_vault,
            to_vault,
            from_pubkey,
            to_pubkey,
            amount,
            stamp,
        );
        assert(transfer_recorded(r, from_vault, to_vault, from_pubkey@, to_pubkey@, amount, drawn));
        r
    }
}

} // verus!
