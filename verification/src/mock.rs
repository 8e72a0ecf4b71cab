//! A controller without a device, for code that needs a
//! [`DisplayController`] and has no hardware.

use crate::controller::{
    ereading_from_state_spec, mode_from_state_spec, restore_last_mode_spec, DisplayController,
};
use crate::dimming::{clamp, clamp_dimming_spec, clamp_spec, percent_to_dimming, percent_to_dimming_spec};
use crate::error::ControllerError;
use crate::modes::{DisplayMode, SplendidMode};
use crate::state::ControllerState;
use vstd::prelude::*;

verus! {

/// A display controller that keeps its state in memory. Every request
/// succeeds at once and is written into the state.
#[derive(Debug)]
pub struct MockController {
    state: ControllerState,
}

impl View for MockController {
    type V = ControllerState;

    closed spec fn view(&self) -> ControllerState {
        self.state
    }
}

/// The state of a mock controller before any request: Normal, overlay off,
/// dimming 70, manual slider 50, eye-care level 2, grayscale 4 and
/// temperature 50.
pub open spec fn mock_initial_state() -> ControllerState {
    ControllerState {
        mode_id: 1,
        is_monochrome: false,
        dimming: 70,
        manual_slider: 50,
        eyecare_level: 2,
        ereading_grayscale: 4,
        ereading_temp: 50,
        last_non_ereading_mode: 1,
    }
}

/// The state after a mode was applied. E-reading switches the overlay on
/// and remembers the mode identifier that was active; any other mode
/// becomes the active one and switches the overlay off. The slider values
/// stay.
pub open spec fn mock_set_mode_spec(state: ControllerState, mode: SplendidMode) -> ControllerState {
    if mode is EReading {
        ControllerState { last_non_ereading_mode: state.mode_id, is_monochrome: true, ..state }
    } else {
        ControllerState { mode_id: mode.mode_id_spec(), is_monochrome: false, ..state }
    }
}

/// The mode that a toggle applies: with the overlay on, the mode that the
/// remembered identifier stands for; with the overlay off, e-reading with
/// the values of the state.
pub open spec fn mock_toggle_target_spec(state: ControllerState) -> SplendidMode {
    if state.is_monochrome {
        restore_last_mode_spec(state)
    } else {
        ereading_from_state_spec(state)
    }
}

impl MockController {
    /// Creates a mock controller in its initial state.
    pub fn new() -> (mock: MockController)
        ensures
            mock@ == mock_initial_state(),
    {
        MockController {
            state: ControllerState {
                mode_id: 1,
                is_monochrome: false,
                dimming: 70,
                manual_slider: 50,
                eyecare_level: 2,
                ereading_grayscale: 4,
                ereading_temp: 50,
                last_non_ereading_mode: 1,
            },
        }
    }

    /// Creates a mock controller with the given state.
    pub fn with_state(state: ControllerState) -> (mock: MockController)
        ensures
            mock@ == state,
    {
        MockController { state }
    }
}

impl Default for MockController {
    fn default() -> (mock: MockController)
        ensures
            mock@ == mock_initial_state(),
    {
        MockController::new()
    }
}

impl DisplayController for MockController {
    fn get_state(&self) -> (state: ControllerState)
        ensures
            state == self@,
    {
        self.state
    }

    fn refresh_sliders(&self) -> (done: Result<(), ControllerError>)
        ensures
            done is Ok,
    {
        Ok(())
    }

    fn sync_all_sliders(&self) -> (synced: Result<ControllerState, ControllerError>)
        ensures
            synced == Ok::<ControllerState, ControllerError>(self@),
    {
        Ok(self.state)
    }

    fn set_dimming(&mut self, level: i32) -> (done: Result<(), ControllerError>)
        ensures
            done is Ok,
            final(self)@ == (ControllerState {
                dimming: clamp_dimming_spec(level as int) as i32,
                ..old(self)@
            }),
    {
        self.state.dimming = clamp(level, 40, 100);
        Ok(())
    }

    fn set_dimming_percent(&mut self, percent: i32) -> (done: Result<(), ControllerError>)
        ensures
            done is Ok,
            final(self)@ == (ControllerState {
                dimming: percent_to_dimming_spec(clamp_spec(percent as int, 0, 100)) as i32,
                ..old(self)@
            }),
    {
        let splendid_value: i32 = percent_to_dimming(clamp(percent, 0, 100));
        self.set_dimming(splendid_value)
    }

    fn get_current_mode(&self) -> (mode: Result<SplendidMode, ControllerError>)
        ensures
            mode == mode_from_state_spec(self@),
    {
        match SplendidMode::from_callback(self.state.mode_id, self.state.is_monochrome, &self.state) {
            Some(mode) => Ok(mode),
            None => Err(ControllerError::ModeNotDetected),
        }
    }

    fn set_mode<M: DisplayMode>(&mut self, mode: &M) -> (done: Result<(), ControllerError>)
        ensures
            done is Ok,
            final(self)@ == mock_set_mode_spec(old(self)@, mode.variant()),
    {
        if mode.is_ereading() {
            self.state.last_non_ereading_mode = self.state.mode_id;
            self.state.is_monochrome = true;
        } else {
            self.state.mode_id = mode.mode_id();
            self.state.is_monochrome = false;
        }
        Ok(())
    }

    fn toggle_e_reading(&mut self) -> (mode: Result<SplendidMode, ControllerError>)
        ensures
            mode == Ok::<SplendidMode, ControllerError>(mock_toggle_target_spec(old(self)@)),
            final(self)@ == mock_set_mode_spec(old(self)@, mock_toggle_target_spec(old(self)@)),
    {
        let target: SplendidMode = if self.state.is_monochrome {
            SplendidMode::from_mode_id(self.state.last_non_ereading_mode, &self.state)
        } else {
            SplendidMode::EReading {
                grayscale: self.state.ereading_grayscale,
                temp: self.state.ereading_temp,
            }
        };
        let _ = self.set_mode(&target);
        Ok(target)
    }
}

/// With the mock controller a toggle into e-reading and back restores the
/// mode that was active, with its slider value, and the state it started
/// from.
///
/// From a state with the overlay off, the first toggle applies e-reading
/// with the values of the state. If the state resolved to a mode, the
/// second toggle applies that mode, and only the remembered identifier may
/// differ afterwards. If its identifier is none of the known ones, the
/// second toggle applies Normal.
pub proof fn lemma_mock_toggle_round_trip(state: ControllerState)
    requires
        !state.is_monochrome,
    ensures
        mock_toggle_target_spec(state) == ereading_from_state_spec(state),
        ({
            let entered = mock_set_mode_spec(state, mock_toggle_target_spec(state));
            let restored = mock_toggle_target_spec(entered);
            let left = mock_set_mode_spec(entered, restored);
            &&& entered.is_monochrome
            &&& entered.last_non_ereading_mode == state.mode_id
            &&& !left.is_monochrome
            &&& match mode_from_state_spec(state) {
                Ok(mode) => restored == mode && left == (ControllerState {
                    last_non_ereading_mode: state.mode_id,
                    ..state
                }),
                Err(_) => restored == SplendidMode::Normal,
            }
        }),
{
}

} // verus!
