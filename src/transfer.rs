//! The rule of a transfer between two balances, and its use under held guards.

use vstd::prelude::*;
use crate::resource::{BankAccount, Guard};

verus! {

/// What one transfer attempt ended with.
#[derive(Clone, Copy, Debug, PartialEq, Eq, Structural)]
pub enum AttemptOutcome {
    /// The amount moved from source to destination.
    Success,
    /// The source held less than the amount; nothing changed.
    InsufficientValue,
    /// A new balance would not fit in an `i32`; nothing changed.
    OutOfRange,
    /// The guards could not both be taken before the deadline; nothing changed.
    Timeout,
}

/// A change applied to one balance.
#[derive(Clone, Copy, Debug, PartialEq, Eq, Structural)]
pub struct Movement {
    pub outcome: AttemptOutcome,
    pub before: i32,
    pub after: i32,
}

/// The two balances after a transfer was decided.
#[derive(Clone, Copy, Debug, PartialEq, Eq, Structural)]
pub struct Settlement {
    pub outcome: AttemptOutcome,
    pub source: i32,
    pub destination: i32,
}

/// A transfer carried out under both guards: the balances found, and what
/// became of them.
#[derive(Clone, Copy, Debug, PartialEq, Eq, Structural)]
pub struct TransferReport {
    pub source_before: i32,
    pub destination_before: i32,
    pub settlement: Settlement,
}

pub open spec fn fits_i32(v: int) -> bool {
    i32::MIN <= v <= i32::MAX
}

/// Adding `amount` to `before`, unless the sum leaves the range of `i32`.
pub open spec fn credit(before: i32, amount: i32) -> Movement {
    if fits_i32(before + amount) {
        Movement { outcome: AttemptOutcome::Success, before, after: (before + amount) as i32 }
    } else {
        Movement { outcome: AttemptOutcome::OutOfRange, before, after: before }
    }
}

/// Taking `amount` from `before`, only where `before` covers it.
pub open spec fn debit(before: i32, amount: i32) -> Movement {
    if before < amount {
        Movement { outcome: AttemptOutcome::InsufficientValue, before, after: before }
    } else if fits_i32(before - amount) {
        Movement { outcome: AttemptOutcome::Success, before, after: (before - amount) as i32 }
    } else {
        Movement { outcome: AttemptOutcome::OutOfRange, before, after: before }
    }
}

/// Moving `amount` from `source` to `destination`: both change, or neither does.
pub open spec fn transfer_spec(source: i32, destination: i32, amount: i32) -> Settlement {
    if source < amount {
        Settlement { outcome: AttemptOutcome::InsufficientValue, source, destination }
    } else if fits_i32(source - amount) && fits_i32(destination + amount) {
        Settlement {
            outcome: AttemptOutcome::Success,
            source: (source - amount) as i32,
            destination: (destination + amount) as i32,
        }
    } else {
        Settlement { outcome: AttemptOutcome::OutOfRange, source, destination }
    }
}

/// Decides a transfer of `amount` between two balances.
pub fn settle(source: i32, destination: i32, amount: i32) -> (r: Settlement)
    ensures
        r == transfer_spec(source, destination, amount),
{
    if source < amount {
        return Settlement { outcome: AttemptOutcome::InsufficientValue, source, destination };
    }
    match (source.checked_sub(amount), destination.checked_add(amount)) {
        (Some(s), Some(d)) => Settlement { outcome: AttemptOutcome::Success, source: s, destination: d },
        _ => Settlement { outcome: AttemptOutcome::OutOfRange, source, destination },
    }
}

/// Carries out a transfer on two held guards.
pub fn transfer_held(source: &mut Guard, destination: &mut Guard, amount: i32) -> (r: TransferReport)
    ensures
        r.source_before == old(source).value(),
        r.destination_before == old(destination).value(),
        r.settlement == transfer_spec(r.source_before, r.destination_before, amount),
        final(source).value() == r.settlement.source,
        final(destination).value() == r.settlement.destination,
{
    let source_before = source.get();
    let destination_before = destination.get();
    let settlement = settle(source_before, destination_before, amount);
    if settlement.outcome == AttemptOutcome::Success {
        source.set(settlement.source);
        destination.set(settlement.destination);
    }
    TransferReport { source_before, destination_before, settlement }
}

/// Adds `amount` to the balance behind a held guard.
pub fn deposit_held(g: &mut Guard, amount: i32) -> (r: Movement)
    ensures
        r == credit(old(g).value(), amount),
        final(g).value() == r.after,
{
    let before = g.get();
    match before.checked_add(amount) {
        Some(after) => {
            g.set(after);
            Movement { outcome: AttemptOutcome::Success, before, after }
        },
        None => Movement { outcome: AttemptOutcome::OutOfRange, before, after: before },
    }
}

/// Takes `amount` from the balance behind a held guard, if the balance covers it.
pub fn withdraw_held(g: &mut Guard, amount: i32) -> (r: Movement)
    ensures
        r == debit(old(g).value(), amount),
        final(g).value() == r.after,
{
    let before = g.get();
    if before < amount {
        return Movement { outcome: AttemptOutcome::InsufficientValue, before, after: before };
    }
    match before.checked_sub(amount) {
        Some(after) => {
            g.set(after);
            Movement { outcome: AttemptOutcome::Success, before, after }
        },
        None => Movement { outcome: AttemptOutcome::OutOfRange, before, after: before },
    }
}

impl BankAccount {
    /// One probe of both guards, this account's first. Where both are free
    /// the transfer is decided and carried out under them; where either is
    /// held elsewhere, `None`, and a guard already taken is given back at once.
    /// Both guards are released before this returns.
    pub fn try_transfer(&self, target: &BankAccount, amount: i32) -> (r: Option<TransferReport>)
        ensures
            r matches Some(rep) ==> rep.settlement == transfer_spec(
                rep.source_before,
                rep.destination_before,
                amount,
            ),
    {
        match self.try_acquire() {
            None => None,
            Some(mut first) => match target.try_acquire() {
                None => None,
                Some(mut second) => Some(transfer_held(&mut first, &mut second, amount)),
            },
        }
    }
}

/// A transfer that the source covers, and whose new balances fit, succeeds:
/// the source loses `amount`, the destination gains it, and the sum of the two
/// is kept.
pub proof fn lemma_covered_transfer_moves_amount(source: i32, destination: i32, amount: i32)
    requires
        source >= amount,
        fits_i32(source - amount),
        fits_i32(destination + amount),
    ensures
        transfer_spec(source, destination, amount).outcome == AttemptOutcome::Success,
        transfer_spec(source, destination, amount).source == source - amount,
        transfer_spec(source, destination, amount).destination == destination + amount,
        transfer_spec(source, destination, amount).source + transfer_spec(
            source,
            destination,
            amount,
        ).destination == source + destination,
{
}

/// A transfer of more than the source holds is refused, and neither balance
/// changes.
pub proof fn lemma_uncovered_transfer_changes_nothing(source: i32, destination: i32, amount: i32)
    requires
        amount > source,
    ensures
        transfer_spec(source, destination, amount) == (Settlement {
            outcome: AttemptOutcome::InsufficientValue,
            source,
            destination,
        }),
{
}

/// Whatever a transfer decides, the sum of the two balances is kept.
pub proof fn lemma_transfer_conserves_sum(source: i32, destination: i32, amount: i32)
    ensures
        transfer_spec(source, destination, amount).source + transfer_spec(
            source,
            destination,
            amount,
        ).destination == source + destination,
{
}

} // verus!
