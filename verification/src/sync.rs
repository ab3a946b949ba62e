//! What the handles of one channel share, and the lock and the wake-up signal
//! of `std::sync` that it is made of.
//!
//! The declarations of std's types and the functions marked `external_body`
//! are not proved: each states what the standard library documents of the
//! function it stands for. The methods of [`Shared`] are verified against
//! those statements. The lock and the signal are reached through these methods
//! alone, so a guard always meets the signal of its own channel.
//!
//! A thread that panics while it holds a lock leaves the lock poisoned. In
//! this crate a poisoned lock is entered like any other, everywhere: no
//! function here fails on it. The steps taken under the lock are those of
//! `Inner`, each of which is verified to leave a whole state behind, and a
//! sender has to be able to count itself out when it is dropped, which must
//! not unwind.

use crate::inner::Inner;
use std::sync::Arc;
use std::sync::Condvar;
use std::sync::Mutex;
use std::sync::MutexGuard;
use vstd::prelude::*;

verus! {

/// `std::sync::Mutex`, as a type whose inside is not visible.
#[verifier::external_type_specification]
#[verifier::external_body]
#[verifier::reject_recursive_types(T)]
pub struct ExMutex<T: ?Sized>(Mutex<T>);

/// `std::sync::MutexGuard`, as a type whose inside is not visible.
#[verifier::external_type_specification]
#[verifier::external_body]
#[verifier::reject_recursive_types(T)]
pub struct ExMutexGuard<'a, T: ?Sized + 'a>(MutexGuard<'a, T>);

/// `std::sync::Condvar`, as a type whose inside is not visible.
#[verifier::external_type_specification]
#[verifier::external_body]
pub struct ExCondvar(Condvar);

/// `Mutex::new`: a lock around the given value. Nothing is claimed of it.
pub assume_specification<T>[ Mutex::<T>::new ](t: T) -> (mutex: Mutex<T>)
;

/// `Condvar::new`: a signal that nobody waits on yet. Nothing is claimed of
/// it.
pub assume_specification[ Condvar::new ]() -> (signal: Condvar)
;

/// `Condvar::notify_one`: wakes one thread that waits on the signal, if there
/// is one. The one claim is that the call returns without unwinding.
#[verifier::external_body]
fn notify_one(signal: &Condvar)
    opens_invariants none
    no_unwind
{
    signal.notify_one()
}

/// `Arc::clone`: one more pointer to the same allocation. The claim is that
/// the new pointer leads to the value that the given one leads to.
#[verifier::external_body]
pub(crate) fn share<V>(pointer: &Arc<V>) -> (other: Arc<V>)
    ensures
        other == *pointer,
{
    Arc::clone(pointer)
}

/// `Mutex::lock`: waits until the lock is free and takes it. Nothing is
/// claimed of the value found behind it: any thread may have written it.
///
/// A lock that is poisoned is entered all the same, by
/// `PoisonError::into_inner`, so the call returns a guard in either case and
/// does not unwind. `lock` may panic or never return where the calling thread
/// holds the lock already; every function of this crate lets go of the guard
/// before it returns, and while it holds one it runs nothing but steps of
/// `Inner` and the wait below.
#[verifier::external_body]
fn lock<'a, V>(mutex: &'a Mutex<V>) -> (guard: MutexGuard<'a, V>)
    opens_invariants none
    no_unwind
{
    match mutex.lock() {
        Ok(guard) => guard,
        Err(poisoned) => poisoned.into_inner(),
    }
}

/// `DerefMut::deref_mut` of a guard: the value behind the lock, for as long as
/// the guard is borrowed. Nothing is claimed of the value; the call does not
/// unwind.
#[verifier::external_body]
pub(crate) fn held<'g, 'a, V>(guard: &'g mut MutexGuard<'a, V>) -> (state: &'g mut V)
    opens_invariants none
    no_unwind
{
    &mut **guard
}

/// `Condvar::wait_while`, with `Inner::is_idle` as the condition: gives up the
/// lock and sleeps until woken, again and again for as long as the state
/// behind the lock is idle, and returns with the lock taken. The state is
/// tested before the first sleep, so a wake-up that came earlier is not
/// missed, and after every wake-up, so one that came for no reason does no
/// harm.
///
/// The guard is taken out of `slot` and the one that `wait_while` hands back is
/// put there in its place. The call returns access to the state behind it,
/// and says whether the wait has run its course. Where it has, the claim is
/// that the state is not idle: the condition was last found false, and the
/// lock has been held since. Where the lock is found poisoned after a sleep,
/// `wait_while` comes back at once with an error; the guard is then taken out
/// of the error as in `lock`, and nothing is claimed of the state.
///
/// The guard has to come from the one lock that this signal is used with:
/// `wait_while` may panic where a signal is used with two locks.
#[verifier::external_body]
fn wait_while_idle<'g, 'a, T>(
    signal: &Condvar,
    slot: &'g mut Option<MutexGuard<'a, Inner<T>>>,
) -> (woken: (&'g mut Inner<T>, bool))
    requires
        *old(slot) is Some,
    ensures
        woken.1 ==> !woken.0@.is_idle(),
{
    let guard = slot.take().unwrap();
    match signal.wait_while(guard, |state| state.is_idle()) {
        Ok(woken) => (&mut **slot.insert(woken), true),
        Err(poisoned) => (&mut **slot.insert(poisoned.into_inner()), false),
    }
}

/// What the handles of one channel share: the state behind its lock, and the
/// signal on which the receiver waits.
#[verifier::reject_recursive_types(T)]
pub struct Shared<T> {
    inner: Mutex<Inner<T>>,
    available: Condvar,
}

impl<T> Shared<T> {
    /// The shared part of a fresh channel: behind the lock nothing is queued
    /// and one sender is counted.
    pub(crate) fn new() -> (shared: Self) {
        Shared { inner: Mutex::new(Inner::new()), available: Condvar::new() }
    }

    /// Takes the lock of this channel. With the guard goes the duty to let go
    /// of it before the lock is taken again.
    pub(crate) fn enter(&self) -> (guard: MutexGuard<'_, Inner<T>>)
        opens_invariants none
        no_unwind
    {
        lock(&self.inner)
    }

    /// Takes the lock of this channel and waits on its signal while the state
    /// is idle. The guard is left in `slot`, which the caller brings empty.
    /// The result is access to the state, and whether the wait has run its
    /// course; where it has, the state is not idle.
    pub(crate) fn enter_when_ready<'g, 'a>(
        &'a self,
        slot: &'g mut Option<MutexGuard<'a, Inner<T>>>,
    ) -> (woken: (&'g mut Inner<T>, bool))
        requires
            *old(slot) is None,
        ensures
            woken.1 ==> !woken.0@.is_idle(),
    {
        *slot = Some(lock(&self.inner));
        wait_while_idle(&self.available, slot)
    }

    /// Wakes the receiver of this channel if it waits.
    pub(crate) fn signal(&self)
        opens_invariants none
        no_unwind
    {
        notify_one(&self.available);
    }
}

} // verus!
