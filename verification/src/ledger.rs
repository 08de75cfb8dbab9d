//! The accounting model: a vault's balances as natural numbers, and the five
//! operations as total functions on them. Every executable operation of this
//! crate is specified by one of these functions.

use vstd::prelude::*;
use crate::program::errors::VaultError;

verus! {

/// The balance fields of one vault, without machine bounds.
pub struct Balances {
    pub total: nat,
    pub locked: nat,
    pub available: nat,
    pub deposited: nat,
    pub withdrawn: nat,
}

/// The largest value a balance field can hold.
pub open spec fn max_balance() -> nat {
    u64::MAX as nat
}

/// The accounting identity: every token is either locked or available.
pub open spec fn consistent(b: Balances) -> bool {
    b.total == b.locked + b.available
}

/// Every field fits the 64-bit range.
pub open spec fn representable(b: Balances) -> bool {
    &&& b.total <= max_balance()
    &&& b.locked <= max_balance()
    &&& b.available <= max_balance()
    &&& b.deposited <= max_balance()
    &&& b.withdrawn <= max_balance()
}

/// A computed state is committed only if it keeps the accounting identity.
pub open spec fn commit(b: Balances) -> Result<Balances, VaultError> {
    if consistent(b) {
        Ok(b)
    } else {
        Err(VaultError::InvariantViolation)
    }
}

/// Deposit: total, available and the lifetime deposits grow by `amount`.
pub open spec fn deposit(b: Balances, amount: nat) -> Result<Balances, VaultError> {
    if amount == 0 {
        Err(VaultError::InvalidAmount)
    } else if b.total + amount > max_balance() || b.available + amount > max_balance()
        || b.deposited + amount > max_balance() {
        Err(VaultError::ArithmeticOverflow)
    } else {
        commit(
            Balances {
                total: b.total + amount,
                available: b.available + amount,
                deposited: b.deposited + amount,
                ..b
            },
        )
    }
}

/// Withdrawal: total and available shrink by `amount`, the lifetime
/// withdrawals grow by it. Only the available balance gates it.
pub open spec fn withdraw(b: Balances, amount: nat) -> Result<Balances, VaultError> {
    if amount == 0 {
        Err(VaultError::InvalidAmount)
    } else if b.available < amount {
        Err(VaultError::InsufficientBalance)
    } else if b.total < amount {
        Err(VaultError::ArithmeticUnderflow)
    } else if b.withdrawn + amount > max_balance() {
        Err(VaultError::ArithmeticOverflow)
    } else {
        commit(
            Balances {
                total: (b.total - amount) as nat,
                available: (b.available - amount) as nat,
                withdrawn: b.withdrawn + amount,
                ..b
            },
        )
    }
}

/// Lock: `amount` moves from available to locked.
pub open spec fn lock(b: Balances, amount: nat) -> Result<Balances, VaultError> {
    if amount == 0 {
        Err(VaultError::InvalidAmount)
    } else if b.available < amount {
        Err(VaultError::InsufficientBalanceToLock)
    } else if b.locked + amount > max_balance() {
        Err(VaultError::ArithmeticOverflow)
    } else {
        commit(
            Balances {
                locked: b.locked + amount,
                available: (b.available - amount) as nat,
                ..b
            },
        )
    }
}

/// Unlock: `amount` moves from locked to available.
pub open spec fn unlock(b: Balances, amount: nat) -> Result<Balances, VaultError> {
    if amount == 0 {
        Err(VaultError::InvalidAmount)
    } else if b.locked < amount {
        Err(VaultError::InvalidUnlockAmount)
    } else if b.available + amount > max_balance() {
        Err(VaultError::ArithmeticOverflow)
    } else {
        commit(
            Balances {
                locked: (b.locked - amount) as nat,
                available: b.available + amount,
                ..b
            },
        )
    }
}

/// The source of a transfer after it: only its total shrinks.
pub open spec fn debited(from: Balances, amount: nat) -> Balances {
    Balances { total: (from.total - amount) as nat, ..from }
}

/// The destination of a transfer after it: total and available grow.
pub open spec fn credited(to: Balances, amount: nat) -> Balances {
    Balances { total: to.total + amount, available: to.available + amount, ..to }
}

/// Transfer: `amount` leaves the source's total and joins the destination's
/// total and available balance. Locked funds are not touched: the source's
/// books must balance after its total alone has shrunk, or nothing moves.
pub open spec fn transfer(from: Balances, to: Balances, amount: nat) -> Result<
    (Balances, Balances),
    VaultError,
> {
    if amount == 0 {
        Err(VaultError::InvalidAmount)
    } else if from.total < amount {
        Err(VaultError::InsufficientTransferBalance)
    } else if to.total + amount > max_balance() || to.available + amount > max_balance() {
        Err(VaultError::ArithmeticOverflow)
    } else if consistent(debited(from, amount)) && consistent(credited(to, amount)) {
        Ok((debited(from, amount), credited(to, amount)))
    } else {
        Err(VaultError::InvariantViolation)
    }
}

/// One operation on a fleet of vaults, each vault named by its position.
pub enum Operation {
    Deposit { vault: int, amount: nat },
    Withdraw { vault: int, amount: nat },
    Lock { vault: int, amount: nat },
    Unlock { vault: int, amount: nat },
    Transfer { from: int, to: int, amount: nat },
}

/// The operation changes, or would change, the vault at position `i`.
pub open spec fn touches(op: Operation, i: int) -> bool {
    match op {
        Operation::Deposit { vault, .. } => i == vault,
        Operation::Withdraw { vault, .. } => i == vault,
        Operation::Lock { vault, .. } => i == vault,
        Operation::Unlock { vault, .. } => i == vault,
        Operation::Transfer { from, to, .. } => i == from || i == to,
    }
}

/// The fleet with the vault at `i` replaced, where the operation succeeded.
pub open spec fn replaced(fleet: Seq<Balances>, i: int, outcome: Result<Balances, VaultError>)
    -> Option<Seq<Balances>> {
    match outcome {
        Ok(after) if 0 <= i < fleet.len() => Some(fleet.update(i, after)),
        _ => None,
    }
}

/// The fleet after one operation; `None` where the operation is refused or
/// names a vault that is not there. A transfer needs two different vaults.
pub open spec fn step(fleet: Seq<Balances>, op: Operation) -> Option<Seq<Balances>> {
    match op {
        Operation::Deposit { vault, amount } => replaced(
            fleet,
            vault,
            deposit(fleet[vault], amount),
        ),
        Operation::Withdraw { vault, amount } => replaced(
            fleet,
            vault,
            withdraw(fleet[vault], amount),
        ),
        Operation::Lock { vault, amount } => replaced(fleet, vault, lock(fleet[vault], amount)),
        Operation::Unlock { vault, amount } => replaced(
            fleet,
            vault,
            unlock(fleet[vault], amount),
        ),
        Operation::Transfer { from, to, amount } => {
            if 0 <= from < fleet.len() && 0 <= to < fleet.len() && from != to {
                match transfer(fleet[from], fleet[to], amount) {
                    Ok(moved) => Some(fleet.update(from, moved.0).update(to, moved.1)),
                    Err(_) => None,
                }
            } else {
                None
            }
        },
    }
}

/// The fleet after the operations, applied in order; `None` as soon as one of
/// them is refused.
pub open spec fn run(fleet: Seq<Balances>, ops: Seq<Operation>) -> Option<Seq<Balances>>
    decreases ops.len(),
{
    if ops.len() == 0 {
        Some(fleet)
    } else {
        match run(fleet, ops.drop_last()) {
            Some(before) => step(before, ops.last()),
            None => None,
        }
    }
}

/// One of the three balances that a vault holds.
pub enum Field {
    Total,
    Locked,
    Available,
}

/// The balance of that name.
pub open spec fn field_of(b: Balances, field: Field) -> nat {
    match field {
        Field::Total => b.total,
        Field::Locked => b.locked,
        Field::Available => b.available,
    }
}

/// The sum of one balance over the vaults.
pub open spec fn sum_of(fleet: Seq<Balances>, field: Field) -> nat
    decreases fleet.len(),
{
    if fleet.len() == 0 {
        0
    } else {
        sum_of(fleet.drop_last(), field) + field_of(fleet.last(), field)
    }
}

/// The sum of the vaults' total balances.
pub open spec fn total_value(fleet: Seq<Balances>) -> nat {
    sum_of(fleet, Field::Total)
}

/// The sum of the vaults' locked balances.
pub open spec fn total_locked(fleet: Seq<Balances>) -> nat {
    sum_of(fleet, Field::Locked)
}

/// The sum of the vaults' available balances.
pub open spec fn total_available(fleet: Seq<Balances>) -> nat {
    sum_of(fleet, Field::Available)
}

/// The sum over the first `n` vaults and the next one is the sum over the
/// first `n + 1`.
pub proof fn lemma_sum_next(fleet: Seq<Balances>, field: Field, n: int)
    requires
        0 <= n < fleet.len(),
    ensures
        sum_of(fleet.take(n + 1), field) == sum_of(fleet.take(n), field) + field_of(
            fleet[n],
            field,
        ),
{
    assert(fleet.take(n + 1).drop_last() =~= fleet.take(n));
}

/// A sum over the first vaults is at most the sum over all of them.
pub proof fn lemma_sum_grows(fleet: Seq<Balances>, field: Field, n: int)
    requires
        0 <= n <= fleet.len(),
    ensures
        sum_of(fleet.take(n), field) <= sum_of(fleet, field),
    decreases fleet.len() - n,
{
    if n < fleet.len() {
        lemma_sum_next(fleet, field, n);
        lemma_sum_grows(fleet, field, n + 1);
    } else {
        assert(fleet.take(n) =~= fleet);
    }
}

/// An operation that succeeds leaves each vault it touched with balanced
/// books, whatever state it started from.
pub proof fn law_success_balances_books(b: Balances, other: Balances, amount: nat)
    ensures
        deposit(b, amount) matches Ok(after) ==> consistent(after),
        withdraw(b, amount) matches Ok(after) ==> consistent(after),
        lock(b, amount) matches Ok(after) ==> consistent(after),
        unlock(b, amount) matches Ok(after) ==> consistent(after),
        transfer(b, other, amount) matches Ok(moved) ==> consistent(moved.0) && consistent(
            moved.1,
        ),
{
}

/// One step changes no vault but those the operation touches, and leaves
/// those with balanced books.
pub proof fn lemma_step_frame(fleet: Seq<Balances>, op: Operation, i: int)
    requires
        step(fleet, op) is Some,
        0 <= i < fleet.len(),
    ensures
        step(fleet, op)->Some_0.len() == fleet.len(),
        touches(op, i) ==> consistent(step(fleet, op)->Some_0[i]),
        !touches(op, i) ==> step(fleet, op)->Some_0[i] == fleet[i],
{
}

/// After any sequence of operations that all succeeded, every vault that one
/// of them touched satisfies `total == locked + available`.
pub proof fn law_invariant_preserved(fleet: Seq<Balances>, ops: Seq<Operation>, k: int, i: int)
    requires
        run(fleet, ops) is Some,
        0 <= k < ops.len(),
        0 <= i < fleet.len(),
        touches(ops[k], i),
    ensures
        run(fleet, ops)->Some_0.len() == fleet.len(),
        consistent(run(fleet, ops)->Some_0[i]),
    decreases ops.len(),
{
    let before = run(fleet, ops.drop_last())->Some_0;
    lemma_run_keeps_length(fleet, ops.drop_last());
    lemma_step_frame(before, ops.last(), i);
    if k < ops.len() - 1 {
        law_invariant_preserved(fleet, ops.drop_last(), k, i);
    }
}

/// A run neither adds nor removes a vault.
pub proof fn lemma_run_keeps_length(fleet: Seq<Balances>, ops: Seq<Operation>)
    requires
        run(fleet, ops) is Some,
    ensures
        run(fleet, ops)->Some_0.len() == fleet.len(),
    decreases ops.len(),
{
    if ops.len() > 0 {
        lemma_run_keeps_length(fleet, ops.drop_last());
        let before = run(fleet, ops.drop_last())->Some_0;
        if before.len() > 0 {
            lemma_step_frame(before, ops.last(), 0);
        }
    }
}

/// Replacing one vault changes a sum by the difference of that vault's
/// balances.
pub proof fn lemma_sum_update(fleet: Seq<Balances>, field: Field, i: int, b: Balances)
    requires
        0 <= i < fleet.len(),
    ensures
        sum_of(fleet.update(i, b), field) + field_of(fleet[i], field) == sum_of(fleet, field)
            + field_of(b, field),
    decreases fleet.len(),
{
    if i == fleet.len() - 1 {
        assert(fleet.update(i, b).drop_last() =~= fleet.drop_last());
    } else {
        lemma_sum_update(fleet.drop_last(), field, i, b);
        assert(fleet.update(i, b).drop_last() =~= fleet.drop_last().update(i, b));
    }
}

/// A transfer that succeeds takes exactly `amount` from the source's total,
/// adds exactly `amount` to the destination's total, and leaves the sum of the
/// total balances of all vaults as it was.
pub proof fn law_transfer_conserves(fleet: Seq<Balances>, from: int, to: int, amount: nat)
    requires
        step(fleet, Operation::Transfer { from, to, amount }) is Some,
    ensures
        ({
            let after = step(fleet, Operation::Transfer { from, to, amount })->Some_0;
            &&& after[from].total == fleet[from].total - amount
            &&& after[to].total == fleet[to].total + amount
            &&& total_value(after) == total_value(fleet)
        }),
{
    let moved = transfer(fleet[from], fleet[to], amount)->Ok_0;
    lemma_sum_update(fleet, Field::Total, from, moved.0);
    lemma_sum_update(fleet.update(from, moved.0), Field::Total, to, moved.1);
}

/// An operation that would take a balance below zero is refused with the
/// error of its kind.
pub proof fn law_overdraft_refused(b: Balances, other: Balances, amount: nat)
    requires
        amount > 0,
    ensures
        amount > b.available ==> withdraw(b, amount) == Err::<Balances, VaultError>(
            VaultError::InsufficientBalance,
        ),
        amount > b.available ==> lock(b, amount) == Err::<Balances, VaultError>(
            VaultError::InsufficientBalanceToLock,
        ),
        amount > b.locked ==> unlock(b, amount) == Err::<Balances, VaultError>(
            VaultError::InvalidUnlockAmount,
        ),
        amount > b.total ==> transfer(b, other, amount) == Err::<
            (Balances, Balances),
            VaultError,
        >(VaultError::InsufficientTransferBalance),
{
}

/// A deposit that would take the total balance past the largest
/// representable value is refused as an overflow.
pub proof fn law_deposit_overflow_refused(b: Balances, amount: nat)
    requires
        amount > 0,
        b.total + amount > max_balance(),
    ensures
        deposit(b, amount) == Err::<Balances, VaultError>(VaultError::ArithmeticOverflow),
{
}

/// A deposit and a withdrawal that succeed in both orders leave the same
/// balances in both: whichever of two such requests is served first, the
/// vault ends in the one state.
pub proof fn law_deposit_and_withdrawal_commute(b: Balances, deposited: nat, withdrawn: nat)
    requires
        deposit(b, deposited) matches Ok(first) && withdraw(first, withdrawn) is Ok,
        withdraw(b, withdrawn) matches Ok(first) && deposit(first, deposited) is Ok,
    ensures
        withdraw(deposit(b, deposited)->Ok_0, withdrawn) == deposit(
            withdraw(b, withdrawn)->Ok_0,
            deposited,
        ),
{
}

/// Every operation that succeeds on representable balances yields
/// representable balances: no field wraps.
pub proof fn law_results_representable(b: Balances, other: Balances, amount: nat)
    requires
        representable(b),
        representable(other),
    ensures
        deposit(b, amount) matches Ok(after) ==> representable(after),
        withdraw(b, amount) matches Ok(after) ==> representable(after),
        lock(b, amount) matches Ok(after) ==> representable(after),
        unlock(b, amount) matches Ok(after) ==> representable(after),
        transfer(b, other, amount) matches Ok(moved) ==> representable(moved.0) && representable(
            moved.1,
        ),
{
}

} // verus!
