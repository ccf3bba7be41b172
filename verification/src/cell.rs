//! The holder of the running application: empty until the first row
//! event, filled once, and never emptied or refilled.
//!
//! The holder is a plain value. The embedding program keeps one for the
//! process behind a lock, asks it under that lock what a call is to do,
//! and bootstraps under that lock where it is told to: callers that
//! arrive meanwhile wait for the lock and then find the holder filled.

use vstd::prelude::*;
use crate::run::BootstrapError;

verus! {

/// The holder. `T` is what the driver keeps of a running application.
pub enum RuntimeCell<T> {
    /// No call has bootstrapped yet.
    Uninitialized,
    /// The application runs; every call uses it.
    Ready(T),
    /// The bootstrap failed; every call is told so.
    Failed(BootstrapError),
}

/// What a call is to do.
pub enum Admission<'a, T> {
    /// Bootstrap, and hand the outcome to [`RuntimeCell::install`].
    Bootstrap,
    /// Go on with the running application.
    Proceed(&'a T),
    /// Fail: the application could not be brought up.
    Refuse(&'a BootstrapError),
}

/// The holder after the outcome of a bootstrap was handed to it: an empty
/// holder takes the outcome, a filled one keeps what it has.
pub open spec fn spec_install<T>(
    cell: RuntimeCell<T>,
    outcome: Result<T, BootstrapError>,
) -> RuntimeCell<T> {
    match cell {
        RuntimeCell::Uninitialized => match outcome {
            Ok(running) => RuntimeCell::Ready(running),
            Err(e) => RuntimeCell::Failed(e),
        },
        _ => cell,
    }
}

impl<T> RuntimeCell<T> {
    /// The empty holder.
    pub fn new() -> (cell: Self)
        ensures
            cell == RuntimeCell::<T>::Uninitialized,
    {
        RuntimeCell::Uninitialized
    }

    /// Says what a call is to do: bootstrap where nothing was installed
    /// yet, and otherwise go on with, or fail with, what was installed.
    pub fn enter(&self) -> (admission: Admission<'_, T>)
        ensures
            match *self {
                RuntimeCell::Uninitialized => admission == Admission::<T>::Bootstrap,
                RuntimeCell::Ready(running) => admission == Admission::Proceed(&running),
                RuntimeCell::Failed(e) => admission == Admission::<T>::Refuse(&e),
            },
    {
        match self {
            RuntimeCell::Uninitialized => Admission::Bootstrap,
            RuntimeCell::Ready(running) => Admission::Proceed(running),
            RuntimeCell::Failed(e) => Admission::Refuse(e),
        }
    }

    /// Serves one call: bootstraps where nothing was installed yet and
    /// installs what the bootstrap came to; leaves a filled holder as it
    /// is, without bootstrapping. Afterwards the holder is filled.
    pub fn get_or_init<F: FnOnce() -> Result<T, BootstrapError>>(&mut self, bootstrap: F)
        requires
            bootstrap.requires(()),
        ensures
            !(*final(self) is Uninitialized),
            !(*old(self) is Uninitialized) ==> *final(self) == *old(self),
            *old(self) is Uninitialized ==> exists|outcome: Result<T, BootstrapError>|
                bootstrap.ensures((), outcome) && *final(self) == spec_install(
                    *old(self),
                    outcome,
                ),
    {
        if let RuntimeCell::Uninitialized = self {
            let outcome = bootstrap();
            self.install(outcome);
        }
    }

    /// Installs the outcome of a bootstrap. Only the first outcome is
    /// kept: a failure is as final as a success.
    pub fn install(&mut self, outcome: Result<T, BootstrapError>)
        ensures
            *final(self) == spec_install(*old(self), outcome),
    {
        if let RuntimeCell::Uninitialized = self {
            *self = match outcome {
                Ok(running) => RuntimeCell::Ready(running),
                Err(e) => RuntimeCell::Failed(e),
            };
        }
    }
}

/// What a sequence of calls makes of a holder. Call `i` bootstraps where
/// it finds the holder empty, and `outcomes[i]` is what its bootstrap
/// would come to. The result is the holder after the last call and the
/// number of bootstraps that were made.
pub open spec fn spec_serve<T>(
    cell: RuntimeCell<T>,
    outcomes: Seq<Result<T, BootstrapError>>,
) -> (RuntimeCell<T>, nat)
    decreases outcomes.len(),
{
    if outcomes.len() == 0 {
        (cell, 0)
    } else {
        let (before, bootstraps) = spec_serve(cell, outcomes.drop_last());
        match before {
            RuntimeCell::Uninitialized => (spec_install(before, outcomes.last()), bootstraps + 1),
            _ => (before, bootstraps),
        }
    }
}

/// Calls that are served one after the other bootstrap exactly once, and
/// every one of them finds what that one bootstrap came to: all of them
/// the running application, or all of them the same failure.
pub proof fn lemma_one_bootstrap_serves_all<T>(outcomes: Seq<Result<T, BootstrapError>>, n: int)
    requires
        1 <= n <= outcomes.len(),
    ensures
        spec_serve(RuntimeCell::<T>::Uninitialized, outcomes.take(n)).1 == 1,
        spec_serve(RuntimeCell::<T>::Uninitialized, outcomes.take(n)).0 == spec_install(
            RuntimeCell::<T>::Uninitialized,
            outcomes[0],
        ),
    decreases n,
{
    let calls = outcomes.take(n);
    assert(calls.drop_last() =~= outcomes.take(n - 1));
    if n > 1 {
        lemma_one_bootstrap_serves_all(outcomes, n - 1);
    }
}

} // verus!
