//! The instance guard: the token that lets only one controller be live.

use crate::error::ControllerError;
use vstd::prelude::*;

verus! {

/// The guard that at most one controller holds at a time. One guard is
/// shared by everything that may open a controller.
#[derive(Debug, PartialEq, Eq, Structural)]
pub struct InstanceGuard {
    /// Whether a controller holds the guard.
    pub held: bool,
}

impl InstanceGuard {
    /// The guard after a claim, and what the claim gave: the guard is held
    /// afterwards, and the claim fails exactly if it was held before.
    pub open spec fn claim_spec(self) -> (InstanceGuard, Result<(), ControllerError>) {
        (
            InstanceGuard { held: true },
            if self.held {
                Err(ControllerError::AlreadyInitialized)
            } else {
                Ok(())
            },
        )
    }

    /// The guard after a release.
    pub open spec fn release_spec(self) -> InstanceGuard {
        InstanceGuard { held: false }
    }

    /// A guard that nobody holds.
    pub fn new() -> (guard: InstanceGuard)
        ensures
            !guard.held,
    {
        InstanceGuard { held: false }
    }

    /// Whether a controller holds the guard.
    pub fn is_held(&self) -> (held: bool)
        ensures
            held == self.held,
    {
        self.held
    }

    /// Claims the guard in one exchange: afterwards it is held, and the
    /// claim succeeded exactly if it was free before.
    pub fn acquire(&mut self) -> (claimed: Result<(), ControllerError>)
        ensures
            (*final(self), claimed) == old(self).claim_spec(),
    {
        let was_held: bool = self.held;
        self.held = true;
        if was_held {
            Err(ControllerError::AlreadyInitialized)
        } else {
            Ok(())
        }
    }

    /// Gives the guard back, whether or not it was held.
    pub fn release(&mut self)
        ensures
            *final(self) == old(self).release_spec(),
    {
        self.held = false;
    }
}

/// While the guard is held every further claim fails with
/// `AlreadyInitialized`, however often it is tried; once the guard is
/// released the next claim succeeds.
pub proof fn lemma_one_holder_at_a_time(guard: InstanceGuard)
    ensures
        ({
            let (first, _) = guard.claim_spec();
            let (second, refused) = first.claim_spec();
            let (_, again) = second.release_spec().claim_spec();
            &&& first.held
            &&& second.held
            &&& refused == Err::<(), ControllerError>(ControllerError::AlreadyInitialized)
            &&& again is Ok
        }),
{
}

} // verus!
