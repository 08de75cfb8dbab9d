//! What each endpoint of the service decides: from a request and what the
//! store holds, the records to write and the response to give.

use vstd::prelude::*;
use crate::errors::VaultServiceError;
use crate::identity::new_id;
use crate::models::{
    DepositRequest, InitializeVaultRequest, LockCollateralRequest, TransactionResponse,
    TransferCollateralRequest, TvlResponse, TvlStats, UnlockCollateralRequest, VaultDocument,
    WithdrawRequest,
};
use crate::pubkey::{derived_address, key_text, parse_key, parsed_key, show_key, Pubkey};
use crate::time::{rfc3339_text, show_rfc3339, text_view};
use crate::vault_manager::{
    deposit_recorded, lock_recorded, no_address_text, transfer_recorded, unlock_recorded,
    vault_created, vault_seeds, withdrawal_recorded, LedgerUpdate, Stamp, TransferUpdate,
    VaultCreation, VaultManager,
};

verus! {

/// The query of a history request.
#[derive(Debug, Clone, Copy, PartialEq, Eq, Structural)]
pub struct TransactionHistoryQuery {
    pub limit: i64,
}

/// How many records a history request returns when it names no limit.
pub fn default_limit() -> (limit: i64)
    ensures
        limit == 50,
{
    50
}

impl Default for TransactionHistoryQuery {
    /// A query that names no limit asks for `default_limit()` records.
    fn default() -> (query: Self)
        ensures
            query.limit == 50,
    {
        TransactionHistoryQuery { limit: default_limit() }
    }
}

/// The address, in text, of the vault of the owner whose key `user` spells,
/// for the program with key `program_id`; `None` where `user` is no key or
/// the program has no address for it.
pub open spec fn vault_target(program_id: Seq<u8>, user: Seq<char>) -> Option<Seq<char>> {
    match parsed_key(user) {
        Ok(key) => match derived_address(vault_seeds(key), program_id) {
            Some(found) => Some(key_text(found.0)),
            None => None,
        },
        Err(_) => None,
    }
}

/// `e` says why `user` names no vault.
pub open spec fn target_refused(e: VaultServiceError, program_id: Seq<u8>, user: Seq<char>) -> bool {
    match parsed_key(user) {
        Ok(key) => derived_address(vault_seeds(key), program_id) is None && (e matches VaultServiceError::InternalError(
            text,
        ) && text@ == no_address_text()),
        Err(fault) => e == VaultServiceError::InvalidPublicKey(fault),
    }
}

/// The key that a request names as its user.
pub fn parse_user(user_pubkey: &str) -> (r: Result<Pubkey, VaultServiceError>)
    ensures
        match parsed_key(user_pubkey@) {
            Ok(key) => r matches Ok(user) && user.bytes@ == key,
            Err(fault) => r == Err::<Pubkey, VaultServiceError>(
                VaultServiceError::InvalidPublicKey(fault),
            ),
        },
{
    match parse_key(user_pubkey) {
        Ok(user) => Ok(user),
        Err(fault) => Err(VaultServiceError::InvalidPublicKey(fault)),
    }
}

/// The address, in text, of the vault of the user that a request names: the
/// key under which the store holds that vault.
pub fn vault_address(manager: &VaultManager, user_pubkey: &str) -> (r: Result<
    String,
    VaultServiceError,
>)
    ensures
        match vault_target(manager.program_id.bytes@, user_pubkey@) {
            Some(address) => r matches Ok(text) && text@ == address,
            None => r matches Err(e) && target_refused(
                e,
                manager.program_id.bytes@,
                user_pubkey@,
            ),
        },
{
    let user = match parse_user(user_pubkey) {
        Ok(user) => user,
        Err(e) => { return Err(e); },
    };
    match manager.derive_vault_pda(&user) {
        Some(found) => Ok(show_key(&found.0)),
        None => Err(
            VaultServiceError::InternalError(
                String::from_str("Unable to find a viable program address bump seed"),
            ),
        ),
    }
}

/// `response` reports `signature` with the status `status`.
pub open spec fn responds(response: TransactionResponse, signature: Seq<char>, status: Seq<char>)
    -> bool {
    response.signature@ == signature && response.status@ == status
}

/// `r` answers a request to create the vault of the user whose key `user`
/// spells: the creation and a response that reports the new vault's address
/// as a success, or the reason why not.
pub open spec fn creation_handled(
    r: Result<(VaultCreation, TransactionResponse), VaultServiceError>,
    program_id: Seq<u8>,
    existing: Option<VaultDocument>,
    user: Seq<char>,
    stamp: Stamp,
) -> bool {
    match parsed_key(user) {
        Err(fault) => r matches Err(e) && e == VaultServiceError::InvalidPublicKey(fault),
        Ok(key) => match r {
            Ok(done) => vault_created(Ok(done.0), program_id, existing, key, stamp) && responds(
                done.1,
                done.0.vault_pubkey@,
                "success"@,
            ),
            Err(e) => vault_created(Err(e), program_id, existing, key, stamp),
        },
    }
}

/// Creates the vault of the user that the request names. `existing` is what
/// the store holds at `vault_address` of that user.
pub fn initialize_vault(
    manager: &VaultManager,
    existing: Option<VaultDocument>,
    payload: &InitializeVaultRequest,
) -> (r: Result<(VaultCreation, TransactionResponse), VaultServiceError>)
    ensures
        exists|stamp: Stamp|
            creation_handled(r, manager.program_id.bytes@, existing, payload.user_pubkey@, stamp),
{
    let stamp = Stamp::fresh();
    let ghost drawn = stamp;
    let r = match parse_user(payload.user_pubkey.as_str()) {
        Err(e) => Err(e),
        Ok(user) => match manager.initialize_vault_with(existing, &user, stamp) {
            Ok(created) => {
                let response = TransactionResponse {
                    signature: created.vault_pubkey.clone(),
                    status: String::from_str("success"),
                };
                Ok((created, response))
            },
            Err(e) => Err(e),
        },
    };
    assert(creation_handled(
        r,
        manager.program_id.bytes@,
        existing,
        payload.user_pubkey@,
        drawn,
    ));
    r
}

/// The reference of a settlement that was simulated: `sim_` and an
/// identifier.
pub open spec fn is_simulated(signature: Seq<char>) -> bool {
    signature.len() == 40 && signature.take(4) == "sim_"@
}

/// A fresh reference for a simulated settlement.
pub fn simulated_signature() -> (signature: String)
    ensures
        is_simulated(signature@),
{
    let id = new_id();
    let signature = String::from_str("sim_").concat(id.as_str());
    proof {
        reveal_strlit("sim_");
        assert(signature@.take(4) =~= "sim_"@);
    }
    signature
}

/// The first part of a pair, or the error.
pub open spec fn update_of(r: Result<(LedgerUpdate, TransactionResponse), VaultServiceError>)
    -> Result<LedgerUpdate, VaultServiceError> {
    match r {
        Ok(done) => Ok(done.0),
        Err(e) => Err(e),
    }
}

/// `r` answers with `signature` as confirmed where it answers at all.
pub open spec fn confirms(
    r: Result<(LedgerUpdate, TransactionResponse), VaultServiceError>,
    signature: Seq<char>,
) -> bool {
    r matches Ok(done) ==> responds(done.1, signature, "confirmed"@)
}

/// Pairs an operation's outcome with the response that confirms it.
fn confirm(update: Result<LedgerUpdate, VaultServiceError>, signature: String) -> (r: Result<
    (LedgerUpdate, TransactionResponse),
    VaultServiceError,
>)
    ensures
        update_of(r) == update,
        confirms(r, signature@),
{
    match update {
        Ok(done) => Ok(
            (done, TransactionResponse { signature, status: String::from_str("confirmed") }),
        ),
        Err(e) => Err(e),
    }
}

/// Records the deposit that a request reports, under a fresh simulated
/// reference. `vault` is what the store holds at `vault_address` of the
/// request's user. A user that names no vault is refused before anything
/// else; else the outcome is that of `VaultManager::record_deposit_with` for
/// the vault's address and the reference, and a success is answered with the
/// reference as confirmed.
pub fn record_deposit(
    manager: &VaultManager,
    vault: Option<VaultDocument>,
    payload: &DepositRequest,
) -> (r: Result<(LedgerUpdate, TransactionResponse), VaultServiceError>)
    ensures
        match vault_target(manager.program_id.bytes@, payload.user_pubkey@) {
            None => r matches Err(e) && target_refused(
                e,
                manager.program_id.bytes@,
                payload.user_pubkey@,
            ),
            Some(address) => exists|signature: Seq<char>, stamp: Stamp|
                is_simulated(signature) && confirms(r, signature) && #[trigger] deposit_recorded(
                    update_of(r),
                    vault,
                    address,
                    payload.amount,
                    signature,
                    stamp,
                ),
        },
{
    let address = match vault_address(manager, payload.user_pubkey.as_str()) {
        Ok(address) => address,
        Err(e) => { return Err(e); },
    };
    let signature = simulated_signature();
    let stamp = Stamp::fresh();
    let ghost drawn = stamp;
    let update = VaultManager::record_deposit_with(
        vault,
        address.as_str(),
        payload.amount,
        signature.as_str(),
        stamp,
    );
    let ghost reference = signature@;
    let r = confirm(update, signature);
    assert(deposit_recorded(update_of(r), vault, address@, payload.amount, reference, drawn));
    r
}

/// Records the withdrawal that a request reports, under a fresh simulated
/// reference: as `record_deposit`, with
/// `VaultManager::record_withdrawal_with`.
pub fn record_withdrawal(
    manager: &VaultManager,
    vault: Option<VaultDocument>,
    payload: &WithdrawRequest,
) -> (r: Result<(LedgerUpdate, TransactionResponse), VaultServiceError>)
    ensures
        match vault_target(manager.program_id.bytes@, payload.user_pubkey@) {
            None => r matches Err(e) && target_refused(
                e,
                manager.program_id.bytes@,
                payload.user_pubkey@,
            ),
            Some(address) => exists|signature: Seq<char>, stamp: Stamp|
                is_simulated(signature) && confirms(r, signature)
                    && #[trigger] withdrawal_recorded(
                    update_of(r),
                    vault,
                    address,
                    payload.amount,
                    signature,
                    stamp,
                ),
        },
{
    let address = match vault_address(manager, payload.user_pubkey.as_str()) {
        Ok(address) => address,
        Err(e) => { return Err(e); },
    };
    let signature = simulated_signature();
    let stamp = Stamp::fresh();
    let ghost drawn = stamp;
    let update = VaultManager::record_withdrawal_with(
        vault,
        address.as_str(),
        payload.amount,
        signature.as_str(),
        stamp,
    );
    let ghost reference = signature@;
    let r = confirm(update, signature);
    assert(withdrawal_recorded(update_of(r), vault, address@, payload.amount, reference, drawn));
    r
}

/// Locks collateral for the position manager. `vault` is what the store
/// holds under the request's vault address. The outcome is that of
/// `VaultManager::lock_collateral_with`; a success is answered with
/// `lock_success` as confirmed.
pub fn lock_collateral(vault: Option<VaultDocument>, payload: &LockCollateralRequest) -> (r: Result<
    (LedgerUpdate, TransactionResponse),
    VaultServiceError,
>)
    ensures
        confirms(r, "lock_success"@),
        exists|stamp: Stamp|
            lock_recorded(update_of(r), vault, payload.vault_pubkey@, payload.amount, stamp),
{
    let stamp = Stamp::fresh();
    let ghost drawn = stamp;
    let update = VaultManager::lock_collateral_with(
        vault,
        payload.vault_pubkey.as_str(),
        payload.amount,
        stamp,
    );
    let r = confirm(update, String::from_str("lock_success"));
    assert(lock_recorded(update_of(r), vault, payload.vault_pubkey@, payload.amount, drawn));
    r
}

/// Unlocks collateral for the position manager: as `lock_collateral`, with
/// `VaultManager::unlock_collateral_with` and `unlock_success`.
pub fn unlock_collateral(vault: Option<VaultDocument>, payload: &UnlockCollateralRequest) -> (r:
    Result<(LedgerUpdate, TransactionResponse), VaultServiceError>)
    ensures
        confirms(r, "unlock_success"@),
        exists|stamp: Stamp|
            unlock_recorded(update_of(r), vault, payload.vault_pubkey@, payload.amount, stamp),
{
    let stamp = Stamp::fresh();
    let ghost drawn = stamp;
    let update = VaultManager::unlock_collateral_with(
        vault,
        payload.vault_pubkey.as_str(),
        payload.amount,
        stamp,
    );
    let r = confirm(update, String::from_str("unlock_success"));
    assert(unlock_recorded(update_of(r), vault, payload.vault_pubkey@, payload.amount, drawn));
    r
}

/// The first part of a pair, or the error.
pub open spec fn transfer_of(r: Result<(TransferUpdate, TransactionResponse), VaultServiceError>)
    -> Result<TransferUpdate, VaultServiceError> {
    match r {
        Ok(done) => Ok(done.0),
        Err(e) => Err(e),
    }
}

/// Moves collateral between two vaults for a settlement or a liquidation.
/// `from_vault` and `to_vault` are what the store holds under the request's
/// two addresses. The outcome is that of
/// `VaultManager::transfer_collateral_with`; a success is answered with
/// `transfer_success` as confirmed.
pub fn transfer_collateral(
    from_vault: Option<VaultDocument>,
    to_vault: Option<VaultDocument>,
    payload: &TransferCollateralRequest,
) -> (r: Result<(TransferUpdate, TransactionResponse), VaultServiceError>)
    ensures
        r matches Ok(done) ==> responds(done.1, "transfer_success"@, "confirmed"@),
        exists|stamp: Stamp|
            transfer_recorded(
                transfer_of(r),
                from_vault,
                to_vault,
                payload.from_vault@,
                payload.to_vault@,
                payload.amount,
                stamp,
            ),
{
    let stamp = Stamp::fresh();
    let ghost drawn = stamp;
    let update = VaultManager::transfer_collateral_with(
        from_vault,
        to_vault,
        payload.from_vault.as_str(),
        payload.to_vault.as_str(),
        payload.amount,
        stamp,
    );
    let r = match update {
        Ok(done) => Ok(
            (
                done,
                TransactionResponse {
                    signature: String::from_str("transfer_success"),
                    status: String::from_str("confirmed"),
                },
            ),
        ),
        Err(e) => Err(e),
    };
    assert(transfer_recorded(
        transfer_of(r),
        from_vault,
        to_vault,
        payload.from_vault@,
        payload.to_vault@,
        payload.amount,
        drawn,
    ));
    r
}

/// What is said of a statistics record whose time cannot be shown.
pub open spec fn unshowable_time_text() -> Seq<char> {
    "statistics timestamp is out of range"@
}

/// `r` reports `stats` with its time shown as `timestamp`, or is the internal
/// error for a time that cannot be shown.
pub open spec fn tvl_reported(
    r: Result<TvlResponse, VaultServiceError>,
    stats: TvlStats,
    timestamp: Option<Seq<char>>,
) -> bool {
    match timestamp {
        Some(text) => {
            &&& r matches Ok(response)
            &&& response.total_tvl == stats.total_tvl
            &&& response.total_locked == stats.total_locked
            &&& response.total_available == stats.total_available
            &&& response.vault_count == stats.vault_count
            &&& response.timestamp@ == text
        },
        None => r matches Err(VaultServiceError::InternalError(text)) && text@
            == unshowable_time_text(),
    }
}

/// The fleet statistics as the transport layer reports them, with the
/// record's time as the text `timestamp`. A record whose time has no text is
/// an internal error.
pub fn tvl_response(stats: &TvlStats, timestamp: Option<String>) -> (r: Result<
    TvlResponse,
    VaultServiceError,
>)
    ensures
        tvl_reported(r, *stats, text_view(timestamp)),
{
    match timestamp {
        Some(timestamp) => Ok(
            TvlResponse {
                total_tvl: stats.total_tvl,
                total_locked: stats.total_locked,
                total_available: stats.total_available,
                vault_count: stats.vault_count,
                timestamp,
            },
        ),
        None => Err(
            VaultServiceError::InternalError(
                String::from_str("statistics timestamp is out of range"),
            ),
        ),
    }
}

/// The fleet statistics as the transport layer reports them, the time in
/// RFC 3339. A record whose time cannot be shown is an internal error.
pub fn get_tvl(stats: &TvlStats) -> (r: Result<TvlResponse, VaultServiceError>)
    ensures
        tvl_reported(
            r,
            *stats,
            rfc3339_text(stats.timestamp.secs as int, stats.timestamp.nanos as int),
        ),
{
    tvl_response(stats, show_rfc3339(&stats.timestamp))
}

/// The answer to a health probe: status 200 and the text `OK`.
pub fn health_check() -> (r: (u16, String))
    ensures
        r.0 == 200,
        r.1@ == "OK"@,
{
    (200, String::from_str("OK"))
}

} // verus!
