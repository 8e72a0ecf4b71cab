//! The steps of a controller operation.
//!
//! An operation of the controller is a short exchange with the native
//! component: calls, waits for the callback to settle, and decisions in
//! between. The controller makes the decisions; its caller makes the calls
//! and the waits. Each operation starts with a [`Step`], and whoever
//! carries a step out hands the result to the controller and receives the
//! next step, until the step is `Done`.

use crate::error::ControllerError;
use crate::modes::SplendidMode;
use crate::native::NativeCall;
use crate::state::ControllerState;
use vstd::prelude::*;

verus! {

/// What an operation hands back when it succeeds.
#[derive(Debug, Clone, Copy, PartialEq, Eq, Structural)]
pub enum Outcome {
    /// The operation is complete and has nothing to report.
    Completed,
    /// The snapshot that a full sync ends with.
    Snapshot(ControllerState),
    /// The mode that was found or applied.
    Mode(SplendidMode),
}

/// The kind of result that an operation ends with when it succeeds.
#[derive(Debug, Clone, Copy, PartialEq, Eq, Structural)]
pub enum OutcomeKind {
    /// Nothing to report.
    Completed,
    /// A snapshot.
    Snapshot,
    /// A mode.
    Mode,
}

impl Outcome {
    /// The kind of this result.
    pub open spec fn kind(self) -> OutcomeKind {
        match self {
            Outcome::Completed => OutcomeKind::Completed,
            Outcome::Snapshot(_) => OutcomeKind::Snapshot,
            Outcome::Mode(_) => OutcomeKind::Mode,
        }
    }

    /// The mode that the operation reported, if it reported one.
    pub fn mode(&self) -> (mode: Option<SplendidMode>)
        ensures
            mode == match *self {
                Outcome::Mode(m) => Some(m),
                _ => None,
            },
    {
        match self {
            Outcome::Mode(m) => Some(*m),
            _ => None,
        }
    }

    /// The snapshot that the operation reported, if it reported one.
    pub fn snapshot(&self) -> (state: Option<ControllerState>)
        ensures
            state == match *self {
                Outcome::Snapshot(s) => Some(s),
                _ => None,
            },
    {
        match self {
            Outcome::Snapshot(s) => Some(*s),
            _ => None,
        }
    }
}

/// What an operation queries the mode for.
#[derive(Debug, Clone, Copy, PartialEq, Eq, Structural)]
pub enum ModeGoal {
    /// To report the current mode.
    Report,
    /// To go on with a query of every slider.
    Sync,
    /// To switch e-reading on or off.
    Toggle,
}

/// Where an operation stands while one of its native calls is out.
#[derive(Debug, Clone, Copy, PartialEq, Eq, Structural)]
pub enum AfterCall {
    /// The mode query is out.
    ModeQuery(ModeGoal),
    /// The query of the manual slider is out.
    ManualQuery {
        /// Whether the queries are part of a full sync.
        sync: bool,
    },
    /// The query of the eye-care slider is out.
    EyeCareQuery {
        /// Whether the queries are part of a full sync.
        sync: bool,
    },
    /// The query of the e-reading values is out.
    MonochromeQuery {
        /// Whether the queries are part of a full sync.
        sync: bool,
    },
    /// The request to set this dimming level is out.
    Dimming {
        /// The level, in device units.
        level: i32,
    },
    /// The request to apply a mode is out.
    Apply {
        /// The mode to report when the request has returned: the mode
        /// that a toggle switched to, nothing for a plain request.
        toggled: Option<SplendidMode>,
    },
}

/// Where an operation stands while it waits for the callback to settle.
#[derive(Debug, Clone, Copy, PartialEq, Eq, Structural)]
pub enum AfterSettle {
    /// After the mode query.
    Mode(ModeGoal),
    /// After the slider queries of a full sync.
    Sync,
}

/// What the caller does next for the operation in progress.
#[derive(Debug)]
pub enum Step {
    /// Make this native call, then hand what it returned to
    /// `AsusController::returned`.
    Call(NativeCall, AfterCall),
    /// Wait the settle interval, then call `AsusController::settled`.
    Settle(AfterSettle),
    /// Nothing: the operation has ended with this result.
    Done(Result<Outcome, ControllerError>),
}

impl ModeGoal {
    /// The kind of result that an operation with this goal ends with.
    pub open spec fn kind(self) -> OutcomeKind {
        match self {
            ModeGoal::Report => OutcomeKind::Mode,
            ModeGoal::Sync => OutcomeKind::Snapshot,
            ModeGoal::Toggle => OutcomeKind::Mode,
        }
    }
}

impl AfterSettle {
    /// The kind of result that the operation ends with.
    pub open spec fn kind(self) -> OutcomeKind {
        match self {
            AfterSettle::Mode(goal) => goal.kind(),
            AfterSettle::Sync => OutcomeKind::Snapshot,
        }
    }

    /// The largest number of calls and waits that may still follow.
    pub open spec fn steps_left(self) -> nat {
        match self {
            AfterSettle::Mode(ModeGoal::Report) => 0,
            AfterSettle::Mode(ModeGoal::Toggle) => 1,
            AfterSettle::Mode(ModeGoal::Sync) => 4,
            AfterSettle::Sync => 0,
        }
    }
}

impl AfterCall {
    /// The kind of result that the operation ends with.
    pub open spec fn kind(self) -> OutcomeKind {
        match self {
            AfterCall::ModeQuery(goal) => goal.kind(),
            AfterCall::ManualQuery { sync } | AfterCall::EyeCareQuery { sync }
            | AfterCall::MonochromeQuery { sync } => if sync {
                OutcomeKind::Snapshot
            } else {
                OutcomeKind::Completed
            },
            AfterCall::Dimming { .. } => OutcomeKind::Completed,
            AfterCall::Apply { toggled } => if toggled is Some {
                OutcomeKind::Mode
            } else {
                OutcomeKind::Completed
            },
        }
    }

    /// The largest number of calls and waits that may still follow.
    pub open spec fn steps_left(self) -> nat {
        match self {
            AfterCall::ModeQuery(goal) => 1 + AfterSettle::Mode(goal).steps_left(),
            AfterCall::ManualQuery { sync } => if sync {
                3
            } else {
                2
            },
            AfterCall::EyeCareQuery { sync } => if sync {
                2
            } else {
                1
            },
            AfterCall::MonochromeQuery { sync } => if sync {
                1
            } else {
                0
            },
            AfterCall::Dimming { .. } => 0,
            AfterCall::Apply { .. } => 0,
        }
    }
}

impl Step {
    /// The largest number of calls and waits that the operation may still
    /// ask for, this step included.
    pub open spec fn steps_left(self) -> nat {
        match self {
            Step::Call(_, after) => 1 + after.steps_left(),
            Step::Settle(after) => 1 + after.steps_left(),
            Step::Done(_) => 0,
        }
    }

    /// Whether the operation, if it succeeds, ends with a result of the
    /// given kind.
    pub open spec fn ends_with(self, kind: OutcomeKind) -> bool {
        match self {
            Step::Call(_, after) => after.kind() == kind,
            Step::Settle(after) => after.kind() == kind,
            Step::Done(Ok(outcome)) => outcome.kind() == kind,
            Step::Done(Err(_)) => true,
        }
    }

    /// Whether the step keeps to the limits of the device: a native call
    /// that it asks for carries no dimming level outside 40..=100.
    pub open spec fn within_limits(self) -> bool {
        self matches Step::Call(call, _) ==> call.within_limits()
    }

    /// Whether the operation has ended.
    pub fn is_done(&self) -> (done: bool)
        ensures
            done == (self is Done),
    {
        match self {
            Step::Done(_) => true,
            _ => false,
        }
    }
}

} // verus!
