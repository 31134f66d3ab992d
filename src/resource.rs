//! Guarded resources: a balance behind a mutex, reached only through a guard.

use vstd::prelude::*;

verus! {

/// `std::sync::Mutex`, carried opaque: its contents are reached only through
/// a guard.
#[verifier::external_type_specification]
#[verifier::external_body]
#[verifier::reject_recursive_types(T)]
pub struct ExMutex<T: ?Sized>(std::sync::Mutex<T>);

/// `std::sync::MutexGuard`, carried opaque; what it guards is `held_value`.
#[verifier::external_type_specification]
#[verifier::external_body]
#[verifier::reject_recursive_types(T)]
pub struct ExMutexGuard<'a, T: ?Sized + 'a>(std::sync::MutexGuard<'a, T>);

/// The value that a held guard gives access to. While the guard is held no
/// other context can reach the value, so it is a function of the guard alone.
pub uninterp spec fn held_value(g: std::sync::MutexGuard<i32>) -> i32;

/// Relies on `Mutex::new`: builds an unlocked mutex around `t`. Nothing is
/// claimed of it, since other contexts may change the value before it is read.
pub assume_specification<T>[ std::sync::Mutex::<T>::new ](t: T) -> std::sync::Mutex<T>;

/// Relies on `Mutex::try_lock`: returns at once, with a guard only where no
/// other guard of the mutex is held. A poisoned mutex still hands out its guard.
#[verifier::external_body]
fn probe_lock(m: &std::sync::Mutex<i32>) -> (r: Option<std::sync::MutexGuard<'_, i32>>) {
    match m.try_lock() {
        Ok(g) => Some(g),
        Err(std::sync::TryLockError::Poisoned(p)) => Some(p.into_inner()),
        Err(std::sync::TryLockError::WouldBlock) => None,
    }
}

/// Relies on `MutexGuard`'s `Deref`: reads the guarded value.
#[verifier::external_body]
fn read_held(g: &std::sync::MutexGuard<i32>) -> (r: i32)
    ensures
        r == held_value(*g),
{
    **g
}

/// Relies on `MutexGuard`'s `DerefMut`: overwrites the guarded value.
#[verifier::external_body]
fn write_held(g: &mut std::sync::MutexGuard<i32>, v: i32)
    ensures
        held_value(*final(g)) == v,
{
    **g = v;
}

/// A balance behind an exclusive guard. The balance can be read or changed
/// only through a [`Guard`], and a guard is released when it goes out of scope,
/// on every path.
pub struct BankAccount {
    balance: std::sync::Mutex<i32>,
}

/// Exclusive access to the balance of one [`BankAccount`].
pub struct Guard<'a> {
    inner: std::sync::MutexGuard<'a, i32>,
}

impl<'a> Guard<'a> {
    /// Wraps a guard of an account's mutex (see [`BankAccount::mutex`]), as
    /// taken by a caller that may block on it.
    pub fn new(inner: std::sync::MutexGuard<'a, i32>) -> (r: Guard<'a>)
        ensures
            r.value() == held_value(inner),
    {
        Guard { inner }
    }

    /// The balance as seen through this guard.
    pub closed spec fn value(&self) -> i32 {
        held_value(self.inner)
    }

    pub fn get(&self) -> (r: i32)
        ensures
            r == self.value(),
    {
        read_held(&self.inner)
    }

    pub fn set(&mut self, v: i32)
        ensures
            final(self).value() == v,
    {
        write_held(&mut self.inner, v);
    }
}

impl BankAccount {
    /// An account holding `initial_balance`, with no guard taken.
    pub fn new(initial_balance: i32) -> (r: BankAccount) {
        BankAccount { balance: std::sync::Mutex::new(initial_balance) }
    }

    /// One non-blocking probe: a guard if no other is held at this instant.
    pub fn try_acquire(&self) -> (r: Option<Guard<'_>>) {
        match probe_lock(&self.balance) {
            Some(g) => Some(Guard { inner: g }),
            None => None,
        }
    }

    /// The mutex behind the balance, for a caller that takes its guard by
    /// blocking (`lock`) and wraps it with [`Guard::new`]. A blocking lock is
    /// left to the caller: it never returns on a mutex that the calling thread
    /// already holds, which no contract here can rule out.
    pub fn mutex(&self) -> (r: &std::sync::Mutex<i32>) {
        &self.balance
    }
}

} // verus!
