//! The display controller: what it asks of the native component for each
//! operation, and what it makes of the answers.

use crate::callback_state::CallbackState;
use crate::dimming::{
    clamp, clamp_dimming_spec, clamp_spec, dimming_to_percent_spec, percent_to_dimming_spec,
    DIMMING_MAX, DIMMING_MIN,
};
use crate::error::ControllerError;
use crate::modes::{DisplayMode, SplendidMode};
use crate::native::{pack_monochrome_spec, NativeCall, RpcSymbol};
use crate::protocol::{AfterCall, AfterSettle, ModeGoal, Outcome, Step};
use crate::state::ControllerState;
use vstd::prelude::*;

verus! {

/// What a display controller offers to its users, whether it drives the
/// device or stands in for it.
pub trait DisplayController {
    /// A snapshot of the current state.
    fn get_state(&self) -> ControllerState;

    /// Refreshes the slider values from the device.
    fn refresh_sliders(&self) -> Result<(), ControllerError>;

    /// Syncs every value from the device and returns the snapshot.
    fn sync_all_sliders(&self) -> Result<ControllerState, ControllerError>;

    /// Sets the dimming level, in device units (40-100).
    fn set_dimming(&mut self, level: i32) -> Result<(), ControllerError>;

    /// Sets the dimming level from a percentage (0-100).
    fn set_dimming_percent(&mut self, percent: i32) -> Result<(), ControllerError>;

    /// The current display mode.
    fn get_current_mode(&self) -> Result<SplendidMode, ControllerError>;

    /// Applies a display mode.
    fn set_mode<M: DisplayMode>(&mut self, mode: &M) -> Result<(), ControllerError>;

    /// Switches e-reading on or off and returns the mode that is now
    /// applied.
    fn toggle_e_reading(&mut self) -> Result<SplendidMode, ControllerError>;
}

/// The live controller of the display.
///
/// It holds no state of its own: the values that the device reports live
/// in the shared [`CallbackState`], which the callback receiver fills and
/// which is handed to every function that reads or writes it. Every
/// operation returns its first [`Step`]; `returned` and `settled` give the
/// steps that follow.
#[derive(Debug)]
pub struct AsusController {
    pub(crate) sealed: (),
}

/// The shared state after the mode identifier of `state` was captured as
/// the mode to restore, if the overlay is on in `state`; unchanged if not.
pub open spec fn capture_spec(shared: CallbackState, state: ControllerState) -> CallbackState {
    if state.is_monochrome {
        CallbackState { last_non_ereading_mode: state.mode_id, ..shared }
    } else {
        shared
    }
}

/// The mode that a snapshot resolves to, or the error for one that
/// resolves to none.
pub open spec fn mode_from_state_spec(state: ControllerState) -> Result<
    SplendidMode,
    ControllerError,
> {
    match SplendidMode::resolve_spec(state.mode_id, state.is_monochrome, state) {
        Some(mode) => Ok(mode),
        None => Err(ControllerError::ModeNotDetected),
    }
}

/// The mode to go back to when e-reading ends.
pub open spec fn restore_last_mode_spec(state: ControllerState) -> SplendidMode {
    SplendidMode::restore_spec(state.last_non_ereading_mode, state)
}

/// The e-reading mode with the values of a snapshot.
pub open spec fn ereading_from_state_spec(state: ControllerState) -> SplendidMode {
    SplendidMode::EReading { grayscale: state.ereading_grayscale, temp: state.ereading_temp }
}

/// The step that applies a mode.
pub open spec fn apply_step_spec(mode: SplendidMode, toggled: Option<SplendidMode>) -> Step {
    Step::Call(mode.call_spec(), AfterCall::Apply { toggled })
}

/// What a toggle does once the mode query has settled.
///
/// If the snapshot resolves to no mode, the toggle ends with
/// `ModeNotDetected` and the shared state stays. Otherwise the current mode
/// identifier is captured as the mode to restore. If the overlay is on, the
/// toggle applies the mode that the captured identifier stands for; if it
/// is off, the e-reading mode with the values of the snapshot.
pub open spec fn toggle_spec(shared: CallbackState) -> (CallbackState, Step) {
    let state = shared.snapshot_spec();
    match mode_from_state_spec(state) {
        Err(e) => (shared, Step::Done(Err(e))),
        Ok(_) => {
            let captured = CallbackState { last_non_ereading_mode: state.mode_id, ..shared };
            let target = if state.is_monochrome {
                restore_last_mode_spec(captured.snapshot_spec())
            } else {
                ereading_from_state_spec(captured.snapshot_spec())
            };
            (captured, apply_step_spec(target, Some(target)))
        },
    }
}

/// The shared state and the next step after a settle wait.
///
/// - After the mode query of a report: the snapshot is resolved, with the
///   capture that an observed overlay brings, and the operation ends with
///   the mode or with `ModeNotDetected`.
/// - After the mode query of a full sync: the same capture, then the query
///   of the manual slider, whatever the snapshot resolved to.
/// - After the mode query of a toggle: see `toggle_spec`.
/// - After the slider queries of a full sync: the operation ends with the
///   snapshot.
pub open spec fn settled_spec(shared: CallbackState, after: AfterSettle) -> (CallbackState, Step) {
    let state = shared.snapshot_spec();
    match after {
        AfterSettle::Mode(ModeGoal::Report) => (
            capture_spec(shared, state),
            Step::Done(
                match mode_from_state_spec(state) {
                    Ok(mode) => Ok(Outcome::Mode(mode)),
                    Err(e) => Err(e),
                },
            ),
        ),
        AfterSettle::Mode(ModeGoal::Sync) => (
            capture_spec(shared, state),
            Step::Call(
                NativeCall::Get { symbol: RpcSymbol::GetManualMode },
                AfterCall::ManualQuery { sync: true },
            ),
        ),
        AfterSettle::Mode(ModeGoal::Toggle) => toggle_spec(shared),
        AfterSettle::Sync => (shared, Step::Done(Ok(Outcome::Snapshot(state)))),
    }
}

/// The shared state and the next step after a native call has returned
/// `status`.
///
/// - The mode query is followed by a settle wait.
/// - The slider queries follow each other: manual, eye-care, e-reading.
///   After the last the operation ends, or waits to settle in a full sync.
/// - The request to set a dimming level ends the operation: with status 0
///   the level is written into the shared state at once, any other status
///   is the error `DimmingFailed`.
/// - The request to apply a mode ends the operation, whatever the status.
pub open spec fn returned_ok_spec(shared: CallbackState, after: AfterCall, status: i64) -> (
    CallbackState,
    Step,
) {
    match after {
        AfterCall::ModeQuery(goal) => (shared, Step::Settle(AfterSettle::Mode(goal))),
        AfterCall::ManualQuery { sync } => (
            shared,
            Step::Call(
                NativeCall::Get { symbol: RpcSymbol::GetEyecareMode },
                AfterCall::EyeCareQuery { sync },
            ),
        ),
        AfterCall::EyeCareQuery { sync } => (
            shared,
            Step::Call(
                NativeCall::Get { symbol: RpcSymbol::GetMonochrome },
                AfterCall::MonochromeQuery { sync },
            ),
        ),
        AfterCall::MonochromeQuery { sync } => (
            shared,
            if sync {
                Step::Settle(AfterSettle::Sync)
            } else {
                Step::Done(Ok(Outcome::Completed))
            },
        ),
        AfterCall::Dimming { level } => if status == 0 {
            (
                CallbackState { current_dimming: level, ..shared },
                Step::Done(Ok(Outcome::Completed)),
            )
        } else {
            (shared, Step::Done(Err(ControllerError::DimmingFailed(status))))
        },
        AfterCall::Apply { toggled } => (
            shared,
            Step::Done(
                Ok(
                    match toggled {
                        Some(mode) => Outcome::Mode(mode),
                        None => Outcome::Completed,
                    },
                ),
            ),
        ),
    }
}

/// The shared state and the next step after a native call. A call that
/// could not be made ends the operation with the load error and leaves
/// the shared state as it was.
pub open spec fn returned_spec(
    shared: CallbackState,
    after: AfterCall,
    result: Result<i64, libloading::Error>,
) -> (CallbackState, Step) {
    match result {
        Ok(status) => returned_ok_spec(shared, after, status),
        Err(e) => (shared, Step::Done(Err(ControllerError::DllLoad(e)))),
    }
}

impl AsusController {
    /// Converts dimming from device units (40-100) to a percentage (0-100).
    pub fn dimming_to_percent(splendid_value: i32) -> (percent: i32)
        ensures
            percent == dimming_to_percent_spec(splendid_value as int),
            0 <= percent <= 100,
    {
        crate::dimming::dimming_to_percent(splendid_value)
    }

    /// Converts dimming from a percentage (0-100) to device units (40-100).
    pub fn percent_to_dimming(percent: i32) -> (splendid_value: i32)
        ensures
            splendid_value == percent_to_dimming_spec(percent as int),
            0 <= percent <= 100 ==> 40 <= splendid_value <= 100,
    {
        crate::dimming::percent_to_dimming(percent)
    }

    /// Takes a snapshot of the shared state.
    pub fn get_state(&self, shared: &CallbackState) -> (state: ControllerState)
        ensures
            state == shared.snapshot_spec(),
    {
        shared.snapshot()
    }

    /// Resolves a snapshot to a display mode. A snapshot with the overlay
    /// on resolves to e-reading, and its mode identifier is captured in the
    /// shared state as the mode to restore.
    pub fn mode_from_state(&self, shared: &mut CallbackState, state: &ControllerState) -> (mode:
        Result<SplendidMode, ControllerError>)
        ensures
            mode == mode_from_state_spec(*state),
            *final(shared) == capture_spec(*old(shared), *state),
    {
        if state.is_monochrome {
            shared.store_last_non_ereading_mode(state.mode_id);
        }
        match SplendidMode::from_callback(state.mode_id, state.is_monochrome, state) {
            Some(mode) => Ok(mode),
            None => Err(ControllerError::ModeNotDetected),
        }
    }

    /// The mode to go back to when e-reading ends.
    pub fn restore_last_mode(&self, state: &ControllerState) -> (mode: SplendidMode)
        ensures
            mode == restore_last_mode_spec(*state),
    {
        SplendidMode::from_mode_id(state.last_non_ereading_mode, state)
    }

    /// Starts a query of the three sliders: manual, eye-care, e-reading.
    /// The operation ends when the queries are issued; it does not wait
    /// for the answers.
    pub fn refresh_sliders(&self) -> (step: Step)
        ensures
            step == Step::Call(
                NativeCall::Get { symbol: RpcSymbol::GetManualMode },
                AfterCall::ManualQuery { sync: false },
            ),
            step.within_limits(),
    {
        Step::Call(
            NativeCall::Get { symbol: RpcSymbol::GetManualMode },
            AfterCall::ManualQuery { sync: false },
        )
    }

    /// Starts a full sync: the mode query, a settle wait, the three slider
    /// queries and a second wait. It ends with the snapshot.
    pub fn sync_all_sliders(&self) -> (step: Step)
        ensures
            step == Step::Call(
                NativeCall::Get { symbol: RpcSymbol::GetColorMode },
                AfterCall::ModeQuery(ModeGoal::Sync),
            ),
            step.within_limits(),
    {
        Step::Call(
            NativeCall::Get { symbol: RpcSymbol::GetColorMode },
            AfterCall::ModeQuery(ModeGoal::Sync),
        )
    }

    /// Starts setting the dimming level. The level is clamped to 40..=100
    /// before it is used.
    pub fn set_dimming(&self, level: i32) -> (step: Step)
        ensures
            step == Step::Call(
                NativeCall::SetDimming { level: clamp_dimming_spec(level as int) as i32 },
                AfterCall::Dimming { level: clamp_dimming_spec(level as int) as i32 },
            ),
            step.within_limits(),
    {
        let level: i32 = clamp(level, DIMMING_MIN, DIMMING_MAX);
        Step::Call(NativeCall::SetDimming { level }, AfterCall::Dimming { level })
    }

    /// Starts setting the dimming level from a percentage, which is clamped
    /// to 0..=100 and converted to device units.
    pub fn set_dimming_percent(&self, percent: i32) -> (step: Step)
        ensures
            step == Step::Call(
                NativeCall::SetDimming {
                    level: percent_to_dimming_spec(clamp_spec(percent as int, 0, 100)) as i32,
                },
                AfterCall::Dimming {
                    level: percent_to_dimming_spec(clamp_spec(percent as int, 0, 100)) as i32,
                },
            ),
            step.within_limits(),
    {
        let splendid_value: i32 = Self::percent_to_dimming(clamp(percent, 0, 100));
        self.set_dimming(splendid_value)
    }

    /// Starts a query of the current mode: the mode query, then a settle
    /// wait, then the snapshot is resolved.
    pub fn get_current_mode(&self) -> (step: Step)
        ensures
            step == Step::Call(
                NativeCall::Get { symbol: RpcSymbol::GetColorMode },
                AfterCall::ModeQuery(ModeGoal::Report),
            ),
            step.within_limits(),
    {
        Step::Call(
            NativeCall::Get { symbol: RpcSymbol::GetColorMode },
            AfterCall::ModeQuery(ModeGoal::Report),
        )
    }

    /// Starts switching e-reading on or off: the mode query, a settle
    /// wait, then the request that applies the other mode.
    pub fn toggle_e_reading(&self) -> (step: Step)
        ensures
            step == Step::Call(
                NativeCall::Get { symbol: RpcSymbol::GetColorMode },
                AfterCall::ModeQuery(ModeGoal::Toggle),
            ),
            step.within_limits(),
    {
        Step::Call(
            NativeCall::Get { symbol: RpcSymbol::GetColorMode },
            AfterCall::ModeQuery(ModeGoal::Toggle),
        )
    }

    /// Starts applying a colour preset through the given entry point.
    pub fn set_splendid_mode(&self, symbol: RpcSymbol, value: u8) -> (step: Step)
        ensures
            step == Step::Call(
                NativeCall::SetPreset { symbol, value },
                AfterCall::Apply { toggled: None },
            ),
            step.within_limits(),
    {
        Step::Call(NativeCall::SetPreset { symbol, value }, AfterCall::Apply { toggled: None })
    }

    /// Starts applying the e-reading overlay. `grayscale` is the level as
    /// the hardware counts it, from 0.
    pub fn set_monochrome_mode(&self, grayscale: u8, temp: u8) -> (step: Step)
        ensures
            step == Step::Call(
                NativeCall::SetMonochrome {
                    packed: pack_monochrome_spec(grayscale as int, temp as int) as i32,
                },
                AfterCall::Apply { toggled: None },
            ),
            step.within_limits(),
    {
        Step::Call(
            NativeCall::SetMonochrome { packed: grayscale as i32 * 256 + temp as i32 - 206 },
            AfterCall::Apply { toggled: None },
        )
    }

    /// Starts applying a display mode.
    pub fn set_mode<M: DisplayMode>(&self, mode: &M) -> (step: Step)
        ensures
            step == apply_step_spec(mode.variant(), None),
            step.within_limits(),
    {
        mode.apply(self)
    }

    /// Starts applying `mode`; `toggled` is what the operation reports
    /// at its end.
    pub fn apply_mode(&self, mode: SplendidMode, toggled: Option<SplendidMode>) -> (step: Step)
        ensures
            step == apply_step_spec(mode, toggled),
            step.within_limits(),
    {
        Step::Call(mode.native_call(), AfterCall::Apply { toggled })
    }

    /// Goes on after a native call: `result` is the status that the call
    /// returned, or the error that kept it from being made.
    pub fn returned(
        &self,
        shared: &mut CallbackState,
        after: AfterCall,
        result: Result<i64, libloading::Error>,
    ) -> (step: Step)
        ensures
            (*final(shared), step) == returned_spec(*old(shared), after, result),
            step.within_limits(),
            step.steps_left() <= after.steps_left(),
            step.ends_with(after.kind()),
    {
        let status: i64 = match result {
            Ok(status) => status,
            Err(e) => {
                return Step::Done(Err(ControllerError::DllLoad(e)));
            },
        };
        match after {
            AfterCall::ModeQuery(goal) => Step::Settle(AfterSettle::Mode(goal)),
            AfterCall::ManualQuery { sync } => Step::Call(
                NativeCall::Get { symbol: RpcSymbol::GetEyecareMode },
                AfterCall::EyeCareQuery { sync },
            ),
            AfterCall::EyeCareQuery { sync } => Step::Call(
                NativeCall::Get { symbol: RpcSymbol::GetMonochrome },
                AfterCall::MonochromeQuery { sync },
            ),
            AfterCall::MonochromeQuery { sync } => if sync {
                Step::Settle(AfterSettle::Sync)
            } else {
                Step::Done(Ok(Outcome::Completed))
            },
            AfterCall::Dimming { level } => if status == 0 {
                shared.store_dimming(level);
                Step::Done(Ok(Outcome::Completed))
            } else {
                Step::Done(Err(ControllerError::DimmingFailed(status)))
            },
            AfterCall::Apply { toggled } => Step::Done(
                Ok(
                    match toggled {
                        Some(mode) => Outcome::Mode(mode),
                        None => Outcome::Completed,
                    },
                ),
            ),
        }
    }

    /// Goes on after a settle wait.
    pub fn settled(&self, shared: &mut CallbackState, after: AfterSettle) -> (step: Step)
        ensures
            (*final(shared), step) == settled_spec(*old(shared), after),
            step.within_limits(),
            step.steps_left() <= after.steps_left(),
            step.ends_with(after.kind()),
    {
        let state: ControllerState = shared.snapshot();
        match after {
            AfterSettle::Mode(ModeGoal::Report) => {
                match self.mode_from_state(shared, &state) {
                    Ok(mode) => Step::Done(Ok(Outcome::Mode(mode))),
                    Err(e) => Step::Done(Err(e)),
                }
            },
            AfterSettle::Mode(ModeGoal::Sync) => {
                let _ = self.mode_from_state(shared, &state);
                Step::Call(
                    NativeCall::Get { symbol: RpcSymbol::GetManualMode },
                    AfterCall::ManualQuery { sync: true },
                )
            },
            AfterSettle::Mode(ModeGoal::Toggle) => {
                match self.mode_from_state(shared, &state) {
                    Err(e) => Step::Done(Err(e)),
                    Ok(_) => {
                        if !state.is_monochrome {
                            shared.store_last_non_ereading_mode(state.mode_id);
                        }
                        let state: ControllerState = shared.snapshot();
                        let target: SplendidMode = if state.is_monochrome {
                            self.restore_last_mode(&state)
                        } else {
                            SplendidMode::EReading {
                                grayscale: state.ereading_grayscale,
                                temp: state.ereading_temp,
                            }
                        };
                        self.apply_mode(target, Some(target))
                    },
                }
            },
            AfterSettle::Sync => Step::Done(Ok(Outcome::Snapshot(state))),
        }
    }
}

/// Whatever the shared state holds and whatever a call returned, the next
/// step keeps to the limits of the device: no operation, at any point,
/// asks for a dimming level outside 40..=100. The only steps that carry a
/// dimming level are the first steps of `set_dimming` and
/// `set_dimming_percent`, which clamp it.
pub proof fn lemma_steps_keep_to_limits(
    shared: CallbackState,
    after_call: AfterCall,
    result: Result<i64, libloading::Error>,
    after_settle: AfterSettle,
)
    ensures
        returned_spec(shared, after_call, result).1.within_limits(),
        settled_spec(shared, after_settle).1.within_limits(),
{
}

/// Every operation ends: each step leaves fewer steps to come than the
/// one before it.
pub proof fn lemma_steps_run_out(
    shared: CallbackState,
    after_call: AfterCall,
    result: Result<i64, libloading::Error>,
    after_settle: AfterSettle,
)
    ensures
        returned_spec(shared, after_call, result).1.steps_left() <= after_call.steps_left(),
        settled_spec(shared, after_settle).1.steps_left() <= after_settle.steps_left(),
{
}

/// An operation ends with the kind of result that it set out for: a step
/// never changes what the operation reports at its end.
pub proof fn lemma_steps_keep_their_kind(
    shared: CallbackState,
    after_call: AfterCall,
    result: Result<i64, libloading::Error>,
    after_settle: AfterSettle,
)
    ensures
        returned_spec(shared, after_call, result).1.ends_with(after_call.kind()),
        settled_spec(shared, after_settle).1.ends_with(after_settle.kind()),
{
}

/// A toggle into e-reading and back restores the mode that was active,
/// with its slider value.
///
/// `before` is the shared state when the first toggle has settled: the
/// overlay is off and the state resolves to a mode. The toggle captures
/// the mode identifier and applies e-reading with the values of the state.
/// `during` is the shared state when the second toggle has settled: the
/// overlay is on, and the device still reports the mode identifier and the
/// slider values of `before`. That toggle applies, and reports, the very
/// mode that `before` resolved to.
pub proof fn lemma_toggle_restores_mode(before: CallbackState, during: CallbackState)
    requires
        !before.is_monochrome,
        mode_from_state_spec(before.snapshot_spec()) is Ok,
        during.is_monochrome,
        during.current_mode == before.current_mode,
        during.manual_slider == before.manual_slider,
        during.eyecare_slider == before.eyecare_slider,
    ensures
        toggle_spec(before) == (
            (CallbackState { last_non_ereading_mode: before.current_mode, ..before }),
            apply_step_spec(
                ereading_from_state_spec(before.snapshot_spec()),
                Some(ereading_from_state_spec(before.snapshot_spec())),
            ),
        ),
        match mode_from_state_spec(before.snapshot_spec()) {
            Ok(mode) => toggle_spec(during) == (
                (CallbackState { last_non_ereading_mode: before.current_mode, ..during }),
                apply_step_spec(mode, Some(mode)),
            ),
            Err(_) => true,
        },
{
}

} // verus!
