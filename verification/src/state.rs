//! The snapshot of what the device last reported.

use vstd::prelude::*;

verus! {

/// A snapshot of the controller's state: every mode and slider value at one
/// point in time.
///
/// The mode identifier alone says which of Normal, Vivid, Manual and EyeCare
/// is active. The monochrome flag is an overlay on top of it: while it is
/// set the device is in e-reading mode whatever the identifier says.
#[derive(Debug, Clone, Copy, PartialEq, Eq, Structural)]
pub struct ControllerState {
    /// The current mode identifier (1 = Normal, 2 = Vivid, 6 = Manual, 7 = EyeCare).
    pub mode_id: i32,
    /// Whether the monochrome (e-reading) overlay is active.
    pub is_monochrome: bool,
    /// Display dimming level, in device units (40-100).
    pub dimming: i32,
    /// Manual mode colour temperature slider value (0-100).
    pub manual_slider: u8,
    /// Eye care mode level (0-4).
    pub eyecare_level: u8,
    /// E-reading grayscale level.
    pub ereading_grayscale: u8,
    /// E-reading temperature value.
    pub ereading_temp: u8,
    /// The mode identifier that was active before e-reading was entered.
    pub last_non_ereading_mode: i32,
}

impl Default for ControllerState {
    /// The snapshot with every number 0 and the overlay off.
    fn default() -> (state: ControllerState)
        ensures
            state == (ControllerState {
                mode_id: 0,
                is_monochrome: false,
                dimming: 0,
                manual_slider: 0,
                eyecare_level: 0,
                ereading_grayscale: 0,
                ereading_temp: 0,
                last_non_ereading_mode: 0,
            }),
    {
        ControllerState {
            mode_id: 0,
            is_monochrome: false,
            dimming: 0,
            manual_slider: 0,
            eyecare_level: 0,
            ereading_grayscale: 0,
            ereading_temp: 0,
            last_non_ereading_mode: 0,
        }
    }
}

} // verus!
