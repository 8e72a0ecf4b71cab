//! The display modes: Normal, Vivid, Manual, EyeCare and the e-reading
//! overlay.

use crate::controller::{apply_step_spec, AsusController};
use crate::error::ControllerError;
use crate::native::{pack_monochrome_spec, NativeCall, RpcSymbol};
use crate::protocol::Step;
use crate::state::ControllerState;
use vstd::prelude::*;

verus! {

/// Mode identifier of Normal.
pub const MODE_ID_NORMAL: i32 = 1;

/// Mode identifier of Vivid.
pub const MODE_ID_VIVID: i32 = 2;

/// Mode identifier of Manual.
pub const MODE_ID_MANUAL: i32 = 6;

/// Mode identifier of EyeCare.
pub const MODE_ID_EYECARE: i32 = 7;

/// What stands for a mode identifier where there is none: e-reading is an
/// overlay and has no identifier of its own.
pub const MODE_ID_NONE: i32 = -1;

/// A display mode with its slider values: the closed set of the five modes.
#[derive(Debug, Clone, Copy, PartialEq, Eq, Structural)]
pub enum SplendidMode {
    /// The default colour profile.
    Normal,
    /// Enhanced colours.
    Vivid,
    /// Manual colour temperature, 0-100.
    Manual(u8),
    /// Blue light filter level, 0-4.
    EyeCare(u8),
    /// Grayscale with adjustable temperature: the monochrome overlay.
    EReading {
        /// Grayscale level, 1-5.
        grayscale: u8,
        /// Temperature value.
        temp: u8,
    },
}

impl SplendidMode {
    /// Whether the slider values lie in the range that a user may ask for.
    /// A mode read from a snapshot need not: it mirrors what the hardware
    /// confirmed.
    pub open spec fn in_range(self) -> bool {
        match self {
            SplendidMode::Normal => true,
            SplendidMode::Vivid => true,
            SplendidMode::Manual(value) => value <= 100,
            SplendidMode::EyeCare(level) => level <= 4,
            SplendidMode::EReading { grayscale, .. } => 1 <= grayscale <= 5,
        }
    }

    /// The mode identifier: 1, 2, 6 or 7, and -1 for e-reading.
    pub open spec fn mode_id_spec(self) -> i32 {
        match self {
            SplendidMode::Normal => MODE_ID_NORMAL,
            SplendidMode::Vivid => MODE_ID_VIVID,
            SplendidMode::Manual(_) => MODE_ID_MANUAL,
            SplendidMode::EyeCare(_) => MODE_ID_EYECARE,
            SplendidMode::EReading { .. } => MODE_ID_NONE,
        }
    }

    /// The entry point that applies the mode.
    pub open spec fn symbol_spec(self) -> RpcSymbol {
        match self {
            SplendidMode::Normal => RpcSymbol::SetSplendid,
            SplendidMode::Vivid => RpcSymbol::SetSplendid,
            SplendidMode::Manual(_) => RpcSymbol::SetSplendidManual,
            SplendidMode::EyeCare(_) => RpcSymbol::SetSplendidEyecare,
            SplendidMode::EReading { .. } => RpcSymbol::SetMonochrome,
        }
    }

    /// The native call that applies the mode. A preset passes its
    /// identifier (Normal, Vivid) or its slider value (Manual, EyeCare).
    /// E-reading passes the packed value of its grayscale level, counted
    /// from 0 as the hardware does and so one less than the mode's own, and
    /// its temperature.
    pub open spec fn call_spec(self) -> NativeCall {
        match self {
            SplendidMode::Normal => NativeCall::SetPreset { symbol: RpcSymbol::SetSplendid, value: 1 },
            SplendidMode::Vivid => NativeCall::SetPreset { symbol: RpcSymbol::SetSplendid, value: 2 },
            SplendidMode::Manual(value) => NativeCall::SetPreset {
                symbol: RpcSymbol::SetSplendidManual,
                value,
            },
            SplendidMode::EyeCare(level) => NativeCall::SetPreset {
                symbol: RpcSymbol::SetSplendidEyecare,
                value: level,
            },
            SplendidMode::EReading { grayscale, temp } => NativeCall::SetMonochrome {
                packed: pack_monochrome_spec(grayscale - 1, temp as int) as i32,
            },
        }
    }

    /// The mode that a remembered identifier stands for: 2 is Vivid, 6 is
    /// Manual and 7 is EyeCare, each with its slider value from the
    /// snapshot; anything else is Normal.
    pub open spec fn restore_spec(mode_id: i32, state: ControllerState) -> SplendidMode {
        if mode_id == MODE_ID_VIVID {
            SplendidMode::Vivid
        } else if mode_id == MODE_ID_MANUAL {
            SplendidMode::Manual(state.manual_slider)
        } else if mode_id == MODE_ID_EYECARE {
            SplendidMode::EyeCare(state.eyecare_level)
        } else {
            SplendidMode::Normal
        }
    }

    /// The mode that a mode identifier and the overlay flag resolve to,
    /// with the slider values of the snapshot. With the overlay on it is
    /// e-reading, whatever the identifier. With the overlay off the
    /// identifier must be one of 1, 2, 6 and 7: no other resolves.
    pub open spec fn resolve_spec(
        mode_id: i32,
        is_monochrome: bool,
        state: ControllerState,
    ) -> Option<SplendidMode> {
        if is_monochrome {
            Some(
                SplendidMode::EReading {
                    grayscale: state.ereading_grayscale,
                    temp: state.ereading_temp,
                },
            )
        } else if mode_id == MODE_ID_NORMAL {
            Some(SplendidMode::Normal)
        } else if mode_id == MODE_ID_VIVID {
            Some(SplendidMode::Vivid)
        } else if mode_id == MODE_ID_MANUAL {
            Some(SplendidMode::Manual(state.manual_slider))
        } else if mode_id == MODE_ID_EYECARE {
            Some(SplendidMode::EyeCare(state.eyecare_level))
        } else {
            None
        }
    }

    /// The mode to go back to when e-reading ends, from the identifier that
    /// was remembered.
    pub fn from_mode_id(mode_id: i32, state: &ControllerState) -> (mode: SplendidMode)
        ensures
            mode == SplendidMode::restore_spec(mode_id, *state),
    {
        if mode_id == MODE_ID_VIVID {
            SplendidMode::Vivid
        } else if mode_id == MODE_ID_MANUAL {
            SplendidMode::Manual(state.manual_slider)
        } else if mode_id == MODE_ID_EYECARE {
            SplendidMode::EyeCare(state.eyecare_level)
        } else {
            SplendidMode::Normal
        }
    }

    /// Resolves a reported mode identifier and overlay flag to a mode.
    pub fn from_callback(data: i32, is_monochrome: bool, state: &ControllerState) -> (mode: Option<
        SplendidMode,
    >)
        ensures
            mode == SplendidMode::resolve_spec(data, is_monochrome, *state),
    {
        if is_monochrome {
            Some(
                SplendidMode::EReading {
                    grayscale: state.ereading_grayscale,
                    temp: state.ereading_temp,
                },
            )
        } else if data == MODE_ID_NORMAL {
            Some(SplendidMode::Normal)
        } else if data == MODE_ID_VIVID {
            Some(SplendidMode::Vivid)
        } else if data == MODE_ID_MANUAL {
            Some(SplendidMode::Manual(state.manual_slider))
        } else if data == MODE_ID_EYECARE {
            Some(SplendidMode::EyeCare(state.eyecare_level))
        } else {
            None
        }
    }

    /// The native call that applies the mode.
    pub fn native_call(&self) -> (call: NativeCall)
        ensures
            call == self.call_spec(),
            call.within_limits(),
    {
        match self {
            SplendidMode::Normal => NativeCall::SetPreset { symbol: RpcSymbol::SetSplendid, value: 1 },
            SplendidMode::Vivid => NativeCall::SetPreset { symbol: RpcSymbol::SetSplendid, value: 2 },
            SplendidMode::Manual(value) => NativeCall::SetPreset {
                symbol: RpcSymbol::SetSplendidManual,
                value: *value,
            },
            SplendidMode::EyeCare(level) => NativeCall::SetPreset {
                symbol: RpcSymbol::SetSplendidEyecare,
                value: *level,
            },
            SplendidMode::EReading { grayscale, temp } => NativeCall::SetMonochrome {
                packed: (*grayscale as i32 - 1) * 256 + *temp as i32 - 206,
            },
        }
    }
}

/// An identifier stands for exactly one mode. With the overlay off, the
/// identifiers 1, 2, 6 and 7 resolve, each to the mode that it restores
/// and that has it as its identifier, and no other identifier resolves.
/// With the overlay on every identifier resolves to e-reading.
pub proof fn lemma_identifier_names_one_mode(mode_id: i32, state: ControllerState)
    ensures
        SplendidMode::resolve_spec(mode_id, true, state) == Some(
            (SplendidMode::EReading {
                grayscale: state.ereading_grayscale,
                temp: state.ereading_temp,
            }),
        ),
        SplendidMode::resolve_spec(mode_id, false, state) is Some <==> mode_id == 1 || mode_id == 2
            || mode_id == 6 || mode_id == 7,
        SplendidMode::resolve_spec(mode_id, false, state) matches Some(mode) ==> mode
            == SplendidMode::restore_spec(mode_id, state) && mode.mode_id_spec() == mode_id
            && !(mode is EReading),
{
}

/// What every display mode offers.
pub trait DisplayMode {
    /// The mode of the closed set that this value stands for.
    spec fn variant(&self) -> SplendidMode;

    /// Starts applying this mode with the controller.
    fn apply(&self, controller: &AsusController) -> (step: Step)
        ensures
            step == apply_step_spec(self.variant(), None),
            step.within_limits(),
    ;

    /// The entry point that applies this mode.
    fn symbol(&self) -> (symbol: RpcSymbol)
        ensures
            symbol == self.variant().symbol_spec(),
    ;

    /// Whether this is the e-reading overlay.
    fn is_ereading(&self) -> (ereading: bool)
        ensures
            ereading == (self.variant() is EReading),
    ;

    /// The mode identifier, used to track the state; -1 for e-reading.
    fn mode_id(&self) -> (id: i32)
        ensures
            id == self.variant().mode_id_spec(),
    ;
}

impl DisplayMode for SplendidMode {
    open spec fn variant(&self) -> SplendidMode {
        *self
    }

    fn apply(&self, controller: &AsusController) -> (step: Step) {
        controller.apply_mode(*self, None)
    }

    fn symbol(&self) -> (symbol: RpcSymbol) {
        match self {
            SplendidMode::Normal => RpcSymbol::SetSplendid,
            SplendidMode::Vivid => RpcSymbol::SetSplendid,
            SplendidMode::Manual(_) => RpcSymbol::SetSplendidManual,
            SplendidMode::EyeCare(_) => RpcSymbol::SetSplendidEyecare,
            SplendidMode::EReading { .. } => RpcSymbol::SetMonochrome,
        }
    }

    fn is_ereading(&self) -> (ereading: bool) {
        match self {
            SplendidMode::EReading { .. } => true,
            _ => false,
        }
    }

    fn mode_id(&self) -> (id: i32) {
        match self {
            SplendidMode::Normal => MODE_ID_NORMAL,
            SplendidMode::Vivid => MODE_ID_VIVID,
            SplendidMode::Manual(_) => MODE_ID_MANUAL,
            SplendidMode::EyeCare(_) => MODE_ID_EYECARE,
            SplendidMode::EReading { .. } => MODE_ID_NONE,
        }
    }
}

/// Normal display mode: the default colour profile.
#[derive(Debug, Clone, Copy, PartialEq, Eq, Structural)]
pub struct NormalMode;

impl NormalMode {
    /// Creates a Normal mode.
    pub fn new() -> (mode: NormalMode)
        ensures
            mode.variant() == SplendidMode::Normal,
    {
        NormalMode
    }
}

impl Default for NormalMode {
    fn default() -> (mode: NormalMode)
        ensures
            mode.variant() == SplendidMode::Normal,
    {
        NormalMode
    }
}

impl DisplayMode for NormalMode {
    open spec fn variant(&self) -> SplendidMode {
        SplendidMode::Normal
    }

    fn apply(&self, controller: &AsusController) -> (step: Step) {
        controller.set_splendid_mode(RpcSymbol::SetSplendid, 1)
    }

    fn symbol(&self) -> (symbol: RpcSymbol) {
        RpcSymbol::SetSplendid
    }

    fn is_ereading(&self) -> (ereading: bool) {
        false
    }

    fn mode_id(&self) -> (id: i32) {
        MODE_ID_NORMAL
    }
}

/// Vivid display mode: enhanced colours.
#[derive(Debug, Clone, Copy, PartialEq, Eq, Structural)]
pub struct VividMode;

impl VividMode {
    /// Creates a Vivid mode.
    pub fn new() -> (mode: VividMode)
        ensures
            mode.variant() == SplendidMode::Vivid,
    {
        VividMode
    }
}

impl Default for VividMode {
    fn default() -> (mode: VividMode)
        ensures
            mode.variant() == SplendidMode::Vivid,
    {
        VividMode
    }
}

impl DisplayMode for VividMode {
    open spec fn variant(&self) -> SplendidMode {
        SplendidMode::Vivid
    }

    fn apply(&self, controller: &AsusController) -> (step: Step) {
        controller.set_splendid_mode(RpcSymbol::SetSplendid, 2)
    }

    fn symbol(&self) -> (symbol: RpcSymbol) {
        RpcSymbol::SetSplendid
    }

    fn is_ereading(&self) -> (ereading: bool) {
        false
    }

    fn mode_id(&self) -> (id: i32) {
        MODE_ID_VIVID
    }
}

/// Manual display mode: a colour temperature that the user sets.
#[derive(Debug, Clone, Copy, PartialEq, Eq, Structural)]
pub struct ManualMode {
    /// Colour temperature value (0-100).
    pub value: u8,
}

impl ManualMode {
    /// Creates a Manual mode with the given value, which must not be above
    /// 100.
    pub fn new(value: u8) -> (mode: Result<ManualMode, ControllerError>)
        ensures
            mode is Ok <==> SplendidMode::Manual(value).in_range(),
            value <= 100 ==> mode == Ok::<ManualMode, ControllerError>((ManualMode { value })),
            value > 100 ==> mode == Err::<ManualMode, ControllerError>(
                (ControllerError::InvalidSliderValue { mode: "Manual", value, min: 0, max: 100 }),
            ),
    {
        if value > 100 {
            return Err(
                ControllerError::InvalidSliderValue { mode: "Manual", value, min: 0, max: 100 },
            );
        }
        Ok(ManualMode { value })
    }

    /// The Manual mode with the slider value of a snapshot, which is taken
    /// as it is.
    pub fn from_controller_state(state: &ControllerState) -> (mode: ManualMode)
        ensures
            mode == (ManualMode { value: state.manual_slider }),
    {
        ManualMode { value: state.manual_slider }
    }
}

impl DisplayMode for ManualMode {
    open spec fn variant(&self) -> SplendidMode {
        SplendidMode::Manual(self.value)
    }

    fn apply(&self, controller: &AsusController) -> (step: Step) {
        controller.set_splendid_mode(RpcSymbol::SetSplendidManual, self.value)
    }

    fn symbol(&self) -> (symbol: RpcSymbol) {
        RpcSymbol::SetSplendidManual
    }

    fn is_ereading(&self) -> (ereading: bool) {
        false
    }

    fn mode_id(&self) -> (id: i32) {
        MODE_ID_MANUAL
    }
}

/// Eye Care display mode: reduces blue light.
#[derive(Debug, Clone, Copy, PartialEq, Eq, Structural)]
pub struct EyeCareMode {
    /// Blue light filter level (0-4).
    pub level: u8,
}

impl EyeCareMode {
    /// Creates an Eye Care mode with the given level, which must not be
    /// above 4.
    pub fn new(level: u8) -> (mode: Result<EyeCareMode, ControllerError>)
        ensures
            mode is Ok <==> SplendidMode::EyeCare(level).in_range(),
            level <= 4 ==> mode == Ok::<EyeCareMode, ControllerError>((EyeCareMode { level })),
            level > 4 ==> mode == Err::<EyeCareMode, ControllerError>(
                (ControllerError::InvalidSliderValue {
                    mode: "EyeCare",
                    value: level,
                    min: 0,
                    max: 4,
                }),
            ),
    {
        if level > 4 {
            return Err(
                ControllerError::InvalidSliderValue { mode: "EyeCare", value: level, min: 0, max: 4 },
            );
        }
        Ok(EyeCareMode { level })
    }

    /// The Eye Care mode with the level of a snapshot, which is taken as
    /// it is.
    pub fn from_controller_state(state: &ControllerState) -> (mode: EyeCareMode)
        ensures
            mode == (EyeCareMode { level: state.eyecare_level }),
    {
        EyeCareMode { level: state.eyecare_level }
    }
}

impl DisplayMode for EyeCareMode {
    open spec fn variant(&self) -> SplendidMode {
        SplendidMode::EyeCare(self.level)
    }

    fn apply(&self, controller: &AsusController) -> (step: Step) {
        controller.set_splendid_mode(RpcSymbol::SetSplendidEyecare, self.level)
    }

    fn symbol(&self) -> (symbol: RpcSymbol) {
        RpcSymbol::SetSplendidEyecare
    }

    fn is_ereading(&self) -> (ereading: bool) {
        false
    }

    fn mode_id(&self) -> (id: i32) {
        MODE_ID_EYECARE
    }
}

/// E-Reading display mode: grayscale with adjustable temperature.
#[derive(Debug, Clone, Copy, PartialEq, Eq, Structural)]
pub struct EReadingMode {
    /// Grayscale level (1-5).
    pub grayscale: u8,
    /// Temperature value.
    pub temp: u8,
}

impl EReadingMode {
    /// Creates an E-Reading mode. The grayscale level must be in 1..=5;
    /// any temperature is taken.
    pub fn new(grayscale: u8, temp: u8) -> (mode: Result<EReadingMode, ControllerError>)
        ensures
            mode is Ok <==> (SplendidMode::EReading { grayscale, temp }).in_range(),
            1 <= grayscale <= 5 ==> mode == Ok::<EReadingMode, ControllerError>(
                (EReadingMode { grayscale, temp }),
            ),
            !(1 <= grayscale <= 5) ==> mode == Err::<EReadingMode, ControllerError>(
                (ControllerError::InvalidSliderValue {
                    mode: "EReading grayscale",
                    value: grayscale,
                    min: 1,
                    max: 5,
                }),
            ),
    {
        if grayscale < 1 || grayscale > 5 {
            return Err(
                ControllerError::InvalidSliderValue {
                    mode: "EReading grayscale",
                    value: grayscale,
                    min: 1,
                    max: 5,
                },
            );
        }
        Ok(EReadingMode { grayscale, temp })
    }

    /// The E-Reading mode with the values of a snapshot, which are taken
    /// as they are.
    pub fn from_controller_state(state: &ControllerState) -> (mode: EReadingMode)
        ensures
            mode == (EReadingMode {
                grayscale: state.ereading_grayscale,
                temp: state.ereading_temp,
            }),
    {
        EReadingMode { grayscale: state.ereading_grayscale, temp: state.ereading_temp }
    }
}

impl DisplayMode for EReadingMode {
    open spec fn variant(&self) -> SplendidMode {
        SplendidMode::EReading { grayscale: self.grayscale, temp: self.temp }
    }

    fn apply(&self, controller: &AsusController) -> (step: Step) {
        controller.apply_mode(
            SplendidMode::EReading { grayscale: self.grayscale, temp: self.temp },
            None,
        )
    }

    fn symbol(&self) -> (symbol: RpcSymbol) {
        RpcSymbol::SetMonochrome
    }

    fn is_ereading(&self) -> (ereading: bool) {
        true
    }

    fn mode_id(&self) -> (id: i32) {
        MODE_ID_NONE
    }
}

} // verus!
