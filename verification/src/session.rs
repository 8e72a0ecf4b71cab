//! The life of a controller: opening it claims the instance guard, closing
//! it gives the guard back.
//!
//! Opening takes three steps, and its caller does the native work between
//! them. `AsusController::new` claims the guard. The caller then resolves
//! and loads the native component and calls its initialize entry point;
//! `Opening::init_internal` judges the result. The caller then registers
//! the callback receiver; `Registering::finish` judges that. Whenever a
//! step after the claim fails, the guard is released before the error is
//! returned.

use crate::controller::AsusController;
use crate::error::ControllerError;
use crate::guard::InstanceGuard;
use vstd::prelude::*;

verus! {

/// What the initialize entry point of the native component gave.
#[derive(Debug, Clone, Copy, PartialEq, Eq, Structural)]
pub struct InitReport {
    /// The status that the call returned; 0 is success.
    pub status: i64,
    /// Whether the session handle that it wrote is null.
    pub handle_is_null: bool,
}

impl InitReport {
    /// Whether the session is initialized: the status is 0 and there is a
    /// handle.
    pub open spec fn succeeded(self) -> bool {
        self.status == 0 && !self.handle_is_null
    }
}

/// A controller that holds the guard and waits for its native session.
#[derive(Debug)]
pub struct Opening {
    sealed: (),
}

/// A controller whose native session is initialized and that waits for
/// its callback receiver to be registered.
#[derive(Debug)]
pub struct Registering {
    sealed: (),
}

/// What loading and initializing the native session comes to: the error
/// that kept the session from being loaded, `RpcInitFailed` for a session
/// that was loaded but not initialized, and success otherwise.
pub open spec fn init_outcome_spec(loaded: Result<InitReport, ControllerError>) -> Result<
    (),
    ControllerError,
> {
    match loaded {
        Ok(report) => if report.succeeded() {
            Ok(())
        } else {
            Err(ControllerError::RpcInitFailed)
        },
        Err(e) => Err(e),
    }
}

/// The guard after a whole attempt to open a controller, and whether the
/// attempt succeeded. `loaded` and `registered` are what the two pieces of
/// native work gave; neither is looked at unless the step before it
/// succeeded.
pub open spec fn open_spec(
    guard: InstanceGuard,
    loaded: Result<InitReport, ControllerError>,
    registered: Result<(), libloading::Error>,
) -> (InstanceGuard, Result<(), ControllerError>) {
    let (claimed, claim) = guard.claim_spec();
    match claim {
        Err(e) => (claimed, Err(e)),
        Ok(_) => match init_outcome_spec(loaded) {
            Err(e) => (claimed.release_spec(), Err(e)),
            Ok(_) => match registered {
                Err(e) => (claimed.release_spec(), Err(ControllerError::DllLoad(e))),
                Ok(_) => (claimed, Ok(())),
            },
        },
    }
}

impl AsusController {
    /// Begins to open a controller: claims the instance guard. Fails with
    /// `AlreadyInitialized` if a controller holds it already.
    pub fn new(guard: &mut InstanceGuard) -> (opening: Result<Opening, ControllerError>)
        ensures
            *final(guard) == old(guard).claim_spec().0,
            opening is Ok <==> old(guard).claim_spec().1 is Ok,
            opening is Err ==> opening == Err::<Opening, ControllerError>(
                ControllerError::AlreadyInitialized,
            ),
    {
        match guard.acquire() {
            Ok(_) => Ok(Opening { sealed: () }),
            Err(e) => Err(e),
        }
    }

    /// Closes the controller: releases the instance guard. `teardown` is
    /// what the attempt to call the uninitialize entry point gave; the
    /// guard is released whether or not it succeeded.
    pub fn close(self, guard: &mut InstanceGuard, teardown: Result<(), libloading::Error>)
        ensures
            *final(guard) == old(guard).release_spec(),
    {
        guard.release();
    }
}

impl Opening {
    /// Judges the native session. `loaded` is the report of the initialize
    /// call, or the error that kept the native component from being found,
    /// copied or loaded. On any failure the guard is released.
    pub fn init_internal(
        self,
        guard: &mut InstanceGuard,
        loaded: Result<InitReport, ControllerError>,
    ) -> (registering: Result<Registering, ControllerError>)
        ensures
            match init_outcome_spec(loaded) {
                Ok(_) => registering is Ok && *final(guard) == *old(guard),
                Err(e) => registering == Err::<Registering, ControllerError>(e) && *final(guard)
                    == old(guard).release_spec(),
            },
    {
        match loaded {
            Ok(report) => {
                if report.status != 0 || report.handle_is_null {
                    guard.release();
                    Err(ControllerError::RpcInitFailed)
                } else {
                    Ok(Registering { sealed: () })
                }
            },
            Err(e) => {
                guard.release();
                Err(e)
            },
        }
    }
}

impl Registering {
    /// Judges the registration of the callback receiver. `registered` is
    /// the error that kept the entry point from being called, if any. On
    /// success the controller is live; on failure the guard is released.
    pub fn finish(self, guard: &mut InstanceGuard, registered: Result<(), libloading::Error>) -> (live:
        Result<AsusController, ControllerError>)
        ensures
            match registered {
                Ok(_) => live is Ok && *final(guard) == *old(guard),
                Err(e) => live == Err::<AsusController, ControllerError>(
                    ControllerError::DllLoad(e),
                ) && *final(guard) == old(guard).release_spec(),
            },
    {
        match registered {
            Ok(_) => Ok(AsusController { sealed: () }),
            Err(e) => {
                guard.release();
                Err(ControllerError::DllLoad(e))
            },
        }
    }
}

/// Only one controller is live at a time, and no failed attempt keeps the
/// guard.
///
/// An attempt to open a controller while the guard is held fails with
/// `AlreadyInitialized` and leaves the guard held. An attempt on a free
/// guard succeeds exactly if both pieces of native work did, and then
/// holds the guard; if it fails, the guard is free again. After a close,
/// which releases the guard, the next attempt is made on a free guard.
pub proof fn lemma_open_is_exclusive(
    guard: InstanceGuard,
    loaded: Result<InitReport, ControllerError>,
    registered: Result<(), libloading::Error>,
)
    ensures
        guard.held ==> open_spec(guard, loaded, registered) == (
            guard,
            Err::<(), ControllerError>(ControllerError::AlreadyInitialized),
        ),
        !guard.held ==> (open_spec(guard, loaded, registered).1 is Ok <==> init_outcome_spec(
            loaded,
        ) is Ok && registered is Ok),
        !guard.held ==> (open_spec(guard, loaded, registered).0.held <==> open_spec(
            guard,
            loaded,
            registered,
        ).1 is Ok),
        !open_spec(guard, loaded, registered).0.release_spec().held,
{
}

} // verus!
