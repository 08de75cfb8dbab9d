//! The settlement program's instructions as functions on plain vault state.
//! An instruction either updates the accounts it is given and returns the
//! event to emit, or returns an error and leaves every account as it was.

use vstd::prelude::*;
use crate::ledger;
use crate::program::errors::VaultError;
use crate::program::state::{
    AuthorityUpdatedEvent, CollateralVault, DepositEvent, LockEvent, TransferEvent, UnlockEvent,
    VaultAuthority, WithdrawalEvent,
};
use crate::pubkey::{lemma_key_by_bytes, Pubkey};

pub mod errors;
pub mod state;

verus! {

/// A new vault for `owner`, with nothing in it.
pub fn initialize_vault(owner: Pubkey, token_account: Pubkey, bump: u8, now: i64) -> (vault:
    CollateralVault)
    ensures
        vault == (CollateralVault {
            owner,
            token_account,
            total_balance: 0,
            locked_balance: 0,
            available_balance: 0,
            total_deposited: 0,
            total_withdrawn: 0,
            created_at: now,
            last_updated: now,
            bump,
        }),
        ledger::consistent(vault@),
{
    CollateralVault {
        owner,
        token_account,
        total_balance: 0,
        locked_balance: 0,
        available_balance: 0,
        total_deposited: 0,
        total_withdrawn: 0,
        created_at: now,
        last_updated: now,
        bump,
    }
}

/// A new authority under `admin`, with no program on its list.
pub fn initialize_authority(admin: Pubkey, bump: u8) -> (authority: VaultAuthority)
    ensures
        authority.authorized_programs@ == Seq::<Pubkey>::empty(),
        authority.admin == admin,
        authority.bump == bump,
{
    VaultAuthority { authorized_programs: Vec::new(), admin, bump }
}

/// The keys other than `program_id`.
pub open spec fn other_than(program_id: Pubkey) -> spec_fn(Pubkey) -> bool {
    |key: Pubkey| key != program_id
}

/// Whether `program_id` is on the list.
pub fn is_authorized(programs: &Vec<Pubkey>, program_id: &Pubkey) -> (r: bool)
    ensures
        r == programs@.contains(*program_id),
{
    let mut i: usize = 0;
    while i < programs.len()
        invariant
            i <= programs.len(),
            forall|j: int| 0 <= j < i ==> programs@[j] != *program_id,
        decreases programs.len() - i,
    {
        proof {
            lemma_key_by_bytes(programs@[i as int], *program_id);
        }
        if programs[i] == *program_id {
            return true;
        }
        i += 1;
    }
    false
}

/// Puts `program_id` on the list of programs that may lock and unlock,
/// unless it is there already. A full list refuses even a program that is on
/// it.
pub fn add_authorized_program(
    authority: &mut VaultAuthority,
    authority_key: Pubkey,
    program_id: Pubkey,
    now: i64,
) -> (r: Result<AuthorityUpdatedEvent, VaultError>)
    ensures
        final(authority).admin == old(authority).admin,
        final(authority).bump == old(authority).bump,
        old(authority).authorized_programs@.len() >= 10 ==> {
            &&& r == Err::<AuthorityUpdatedEvent, VaultError>(
                VaultError::MaxAuthorizedProgramsReached,
            )
            &&& final(authority).authorized_programs@ == old(authority).authorized_programs@
        },
        old(authority).authorized_programs@.len() < 10 ==> {
            &&& r == Ok::<AuthorityUpdatedEvent, VaultError>(
                AuthorityUpdatedEvent {
                    authority: authority_key,
                    program: program_id,
                    authorized: true,
                    timestamp: now,
                },
            )
            &&& final(authority).authorized_programs@ == if old(
                authority,
            ).authorized_programs@.contains(program_id) {
                old(authority).authorized_programs@
            } else {
                old(authority).authorized_programs@.push(program_id)
            }
        },
{
    if authority.authorized_programs.len() >= VaultAuthority::MAX_AUTHORIZED_PROGRAMS {
        return Err(VaultError::MaxAuthorizedProgramsReached);
    }
    if !is_authorized(&authority.authorized_programs, &program_id) {
        authority.authorized_programs.push(program_id);
    }
    Ok(
        AuthorityUpdatedEvent {
            authority: authority_key,
            program: program_id,
            authorized: true,
            timestamp: now,
        },
    )
}

/// Takes `program_id` off the list, wherever it stands on it; the other
/// programs keep their order.
pub fn remove_authorized_program(
    authority: &mut VaultAuthority,
    authority_key: Pubkey,
    program_id: Pubkey,
    now: i64,
) -> (event: AuthorityUpdatedEvent)
    ensures
        final(authority).admin == old(authority).admin,
        final(authority).bump == old(authority).bump,
        final(authority).authorized_programs@ == old(authority).authorized_programs@.filter(
            other_than(program_id),
        ),
        event == (AuthorityUpdatedEvent {
            authority: authority_key,
            program: program_id,
            authorized: false,
            timestamp: now,
        }),
{
    let mut kept: Vec<Pubkey> = Vec::new();
    let mut i: usize = 0;
    let ghost before = authority.authorized_programs@;
    while i < authority.authorized_programs.len()
        invariant
            i <= before.len(),
            authority.authorized_programs@ == before,
            kept@ == before.take(i as int).filter(other_than(program_id)),
        decreases before.len() - i,
    {
        let key = authority.authorized_programs[i];
        proof {
            lemma_key_by_bytes(key, program_id);
            before.take(i as int).lemma_filter_push(key, other_than(program_id));
            assert(before.take(i as int).push(key) =~= before.take(i as int + 1));
        }
        if key != program_id {
            kept.push(key);
        }
        i += 1;
    }
    proof {
        assert(before.take(i as int) =~= before);
    }
    authority.authorized_programs = kept;
    AuthorityUpdatedEvent {
        authority: authority_key,
        program: program_id,
        authorized: false,
        timestamp: now,
    }
}

/// Whether the vault's books balance: `total == locked + available`.
pub fn books_balance(total: u64, locked: u64, available: u64) -> (r: bool)
    ensures
        r == (total == locked + available),
{
    match locked.checked_add(available) {
        Some(sum) => sum == total,
        None => false,
    }
}

/// Deposits `amount` into the vault.
pub fn deposit(
    vault: &mut CollateralVault,
    vault_key: Pubkey,
    user: Pubkey,
    amount: u64,
    now: i64,
) -> (r: Result<DepositEvent, VaultError>)
    ensures
        match ledger::deposit(old(vault)@, amount as nat) {
            Ok(b) => {
                &&& *final(vault) == old(vault).with_balances(b, now)
                &&& r == Ok::<DepositEvent, VaultError>(
                    DepositEvent {
                        user,
                        vault: vault_key,
                        amount,
                        new_balance: b.total as u64,
                        timestamp: now,
                    },
                )
            },
            Err(e) => r == Err::<DepositEvent, VaultError>(e) && *final(vault) == *old(vault),
        },
{
    if amount == 0 {
        return Err(VaultError::InvalidAmount);
    }
    let total = match vault.total_balance.checked_add(amount) {
        Some(v) => v,
        None => { return Err(VaultError::ArithmeticOverflow); },
    };
    let available = match vault.available_balance.checked_add(amount) {
        Some(v) => v,
        None => { return Err(VaultError::ArithmeticOverflow); },
    };
    let deposited = match vault.total_deposited.checked_add(amount) {
        Some(v) => v,
        None => { return Err(VaultError::ArithmeticOverflow); },
    };
    if !books_balance(total, vault.locked_balance, available) {
        return Err(VaultError::InvariantViolation);
    }
    vault.total_balance = total;
    vault.available_balance = available;
    vault.total_deposited = deposited;
    vault.last_updated = now;
    Ok(DepositEvent { user, vault: vault_key, amount, new_balance: total, timestamp: now })
}

/// Withdraws `amount` from the vault. Only the available balance decides
/// whether the vault can pay; what is locked plays no other part.
pub fn withdraw(
    vault: &mut CollateralVault,
    vault_key: Pubkey,
    user: Pubkey,
    amount: u64,
    now: i64,
) -> (r: Result<WithdrawalEvent, VaultError>)
    ensures
        match ledger::withdraw(old(vault)@, amount as nat) {
            Ok(b) => {
                &&& *final(vault) == old(vault).with_balances(b, now)
                &&& r == Ok::<WithdrawalEvent, VaultError>(
                    WithdrawalEvent {
                        user,
                        vault: vault_key,
                        amount,
                        new_balance: b.total as u64,
                        timestamp: now,
                    },
                )
            },
            Err(e) => r == Err::<WithdrawalEvent, VaultError>(e) && *final(vault) == *old(vault),
        },
{
    if amount == 0 {
        return Err(VaultError::InvalidAmount);
    }
    if vault.available_balance < amount {
        return Err(VaultError::InsufficientBalance);
    }
    let total = match vault.total_balance.checked_sub(amount) {
        Some(v) => v,
        None => { return Err(VaultError::ArithmeticUnderflow); },
    };
    let available = match vault.available_balance.checked_sub(amount) {
        Some(v) => v,
        None => { return Err(VaultError::ArithmeticUnderflow); },
    };
    let withdrawn = match vault.total_withdrawn.checked_add(amount) {
        Some(v) => v,
        None => { return Err(VaultError::ArithmeticOverflow); },
    };
    if !books_balance(total, vault.locked_balance, available) {
        return Err(VaultError::InvariantViolation);
    }
    vault.total_balance = total;
    vault.available_balance = available;
    vault.total_withdrawn = withdrawn;
    vault.last_updated = now;
    Ok(WithdrawalEvent { user, vault: vault_key, amount, new_balance: total, timestamp: now })
}

/// Reserves `amount` of the available balance for an open position.
pub fn lock_collateral(vault: &mut CollateralVault, vault_key: Pubkey, amount: u64, now: i64) -> (r:
    Result<LockEvent, VaultError>)
    ensures
        match ledger::lock(old(vault)@, amount as nat) {
            Ok(b) => {
                &&& *final(vault) == old(vault).with_balances(b, now)
                &&& r == Ok::<LockEvent, VaultError>(
                    LockEvent {
                        vault: vault_key,
                        amount,
                        locked_balance: b.locked as u64,
                        available_balance: b.available as u64,
                        timestamp: now,
                    },
                )
            },
            Err(e) => r == Err::<LockEvent, VaultError>(e) && *final(vault) == *old(vault),
        },
{
    if amount == 0 {
        return Err(VaultError::InvalidAmount);
    }
    if vault.available_balance < amount {
        return Err(VaultError::InsufficientBalanceToLock);
    }
    let locked = match vault.locked_balance.checked_add(amount) {
        Some(v) => v,
        None => { return Err(VaultError::ArithmeticOverflow); },
    };
    let available = match vault.available_balance.checked_sub(amount) {
        Some(v) => v,
        None => { return Err(VaultError::ArithmeticUnderflow); },
    };
    if !books_balance(vault.total_balance, locked, available) {
        return Err(VaultError::InvariantViolation);
    }
    vault.locked_balance = locked;
    vault.available_balance = available;
    vault.last_updated = now;
    Ok(
        LockEvent {
            vault: vault_key,
            amount,
            locked_balance: locked,
            available_balance: available,
            timestamp: now,
        },
    )
}

/// Releases `amount` of the locked balance when a position is closed.
pub fn unlock_collateral(vault: &mut CollateralVault, vault_key: Pubkey, amount: u64, now: i64) -> (r:
    Result<UnlockEvent, VaultError>)
    ensures
        match ledger::unlock(old(vault)@, amount as nat) {
            Ok(b) => {
                &&& *final(vault) == old(vault).with_balances(b, now)
                &&& r == Ok::<UnlockEvent, VaultError>(
                    UnlockEvent {
                        vault: vault_key,
                        amount,
                        locked_balance: b.locked as u64,
                        available_balance: b.available as u64,
                        timestamp: now,
                    },
                )
            },
            Err(e) => r == Err::<UnlockEvent, VaultError>(e) && *final(vault) == *old(vault),
        },
{
    if amount == 0 {
        return Err(VaultError::InvalidAmount);
    }
    if vault.locked_balance < amount {
        return Err(VaultError::InvalidUnlockAmount);
    }
    let locked = match vault.locked_balance.checked_sub(amount) {
        Some(v) => v,
        None => { return Err(VaultError::ArithmeticUnderflow); },
    };
    let available = match vault.available_balance.checked_add(amount) {
        Some(v) => v,
        None => { return Err(VaultError::ArithmeticOverflow); },
    };
    if !books_balance(vault.total_balance, locked, available) {
        return Err(VaultError::InvariantViolation);
    }
    vault.locked_balance = locked;
    vault.available_balance = available;
    vault.last_updated = now;
    Ok(
        UnlockEvent {
            vault: vault_key,
            amount,
            locked_balance: locked,
            available_balance: available,
            timestamp: now,
        },
    )
}

/// Moves `amount` from one vault's total to another vault's total and
/// available balance, for settlements and liquidations. Both vaults change,
/// or neither does.
pub fn transfer_collateral(
    from_vault: &mut CollateralVault,
    to_vault: &mut CollateralVault,
    from_key: Pubkey,
    to_key: Pubkey,
    amount: u64,
    now: i64,
) -> (r: Result<TransferEvent, VaultError>)
    ensures
        match ledger::transfer(old(from_vault)@, old(to_vault)@, amount as nat) {
            Ok(moved) => {
                &&& *final(from_vault) == old(from_vault).with_balances(moved.0, now)
                &&& *final(to_vault) == old(to_vault).with_balances(moved.1, now)
                &&& r == Ok::<TransferEvent, VaultError>(
                    TransferEvent { from_vault: from_key, to_vault: to_key, amount, timestamp: now },
                )
            },
            Err(e) => {
                &&& r == Err::<TransferEvent, VaultError>(e)
                &&& *final(from_vault) == *old(from_vault)
                &&& *final(to_vault) == *old(to_vault)
            },
        },
{
    if amount == 0 {
        return Err(VaultError::InvalidAmount);
    }
    if from_vault.total_balance < amount {
        return Err(VaultError::InsufficientTransferBalance);
    }
    let from_total = match from_vault.total_balance.checked_sub(amount) {
        Some(v) => v,
        None => { return Err(VaultError::ArithmeticUnderflow); },
    };
    let to_total = match to_vault.total_balance.checked_add(amount) {
        Some(v) => v,
        None => { return Err(VaultError::ArithmeticOverflow); },
    };
    let to_available = match to_vault.available_balance.checked_add(amount) {
        Some(v) => v,
        None => { return Err(VaultError::ArithmeticOverflow); },
    };
    if !books_balance(from_total, from_vault.locked_balance, from_vault.available_balance)
        || !books_balance(to_total, to_vault.locked_balance, to_available) {
        return Err(VaultError::InvariantViolation);
    }
    from_vault.total_balance = from_total;
    from_vault.last_updated = now;
    to_vault.total_balance = to_total;
    to_vault.available_balance = to_available;
    to_vault.last_updated = now;
    Ok(TransferEvent { from_vault: from_key, to_vault: to_key, amount, timestamp: now })
}

} // verus!
