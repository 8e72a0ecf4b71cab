//! The shared state that the native callback fills, and the decoding of a
//! callback into it.
//!
//! The native component reports every change through one callback with
//! three fields: an operation code, an integer payload and an optional text
//! payload. The values are stored as they were reported; a snapshot keeps
//! the low byte of each slider value.

use crate::native::pack_monochrome_spec;
use crate::payload::{int_field, int_field_spec};
use crate::state::ControllerState;
use vstd::prelude::*;

verus! {

/// Operation code of a report of mode, dimming level and overlay.
pub const REPORT_MODE: i32 = 18;

/// Operation code of a report of the manual slider.
pub const REPORT_MANUAL_SLIDER: i32 = 20;

/// Operation code of a report of the eye-care slider.
pub const REPORT_EYECARE_SLIDER: i32 = 21;

/// Operation code of a report of the e-reading values.
pub const REPORT_EREADING: i32 = 27;

/// The quotient of `a` by a positive `b`, rounded toward zero.
pub open spec fn trunc_div(a: int, b: int) -> int {
    if a >= 0 {
        a / b
    } else {
        -((-a) / b)
    }
}

/// The remainder that `trunc_div` leaves; it has the sign of `a`.
pub open spec fn trunc_rem(a: int, b: int) -> int {
    a - b * trunc_div(a, b)
}

/// The low byte of `v`, as an unsigned number.
pub open spec fn low_byte(v: int) -> int {
    v % 256
}

/// What one callback reports.
#[derive(Debug, Clone, Copy, PartialEq, Eq, Structural)]
pub enum CallbackReport {
    /// The mode identifier and, where the text payload held them, the
    /// dimming level and the overlay flag.
    Mode {
        /// The mode identifier.
        mode_id: i32,
        /// The dimming level, in device units.
        dimming: Option<i32>,
        /// Whether the monochrome overlay is on.
        monochrome: Option<bool>,
    },
    /// The value of the manual slider.
    ManualSlider(i32),
    /// The level of the eye-care slider.
    EyeCareSlider(i32),
    /// The e-reading values, as the hardware counts them.
    EReading {
        /// The grayscale level.
        grayscale: i32,
        /// The temperature.
        temp: i32,
    },
    /// Nothing: the operation code is not one of the four known ones.
    Ignored,
}

/// The monochrome flag that an integer field stands for: on unless zero.
pub open spec fn flag_spec(field: Option<i32>) -> Option<bool> {
    match field {
        Some(v) => Some(v != 0),
        None => None,
    }
}

/// What a callback with the given fields reports.
///
/// - Code 18: the integer payload is the mode identifier. The text payload
///   is cut at its commas; the second field is the dimming level and the
///   third the overlay flag, each taken only if it is there and writes an
///   integer.
/// - Code 20 and 21: the integer payload is the slider value.
/// - Code 27: the integer payload plus 206 holds the grayscale level times
///   256 plus the temperature.
/// - Any other code reports nothing.
pub open spec fn decode_spec(func: int, data: i32, text: Option<Seq<u8>>) -> CallbackReport {
    if func == REPORT_MODE {
        match text {
            Some(t) => CallbackReport::Mode {
                mode_id: data,
                dimming: int_field_spec(t, 1),
                monochrome: flag_spec(int_field_spec(t, 2)),
            },
            None => CallbackReport::Mode { mode_id: data, dimming: None, monochrome: None },
        }
    } else if func == REPORT_MANUAL_SLIDER {
        CallbackReport::ManualSlider(data)
    } else if func == REPORT_EYECARE_SLIDER {
        CallbackReport::EyeCareSlider(data)
    } else if func == REPORT_EREADING {
        CallbackReport::EReading {
            grayscale: trunc_div(data + 206, 256) as i32,
            temp: trunc_rem(data + 206, 256) as i32,
        }
    } else {
        CallbackReport::Ignored
    }
}

/// The view of an optional text payload.
pub open spec fn text_view(text: Option<&[u8]>) -> Option<Seq<u8>> {
    match text {
        Some(t) => Some(t@),
        None => None,
    }
}

/// Decodes one callback. `text` is the text payload without its
/// terminator, `None` for a null pointer. Nothing is refused: a text field
/// that is missing or writes no integer is left out of the report.
pub fn decode_callback(func: i32, data: i32, text: Option<&[u8]>) -> (report: CallbackReport)
    ensures
        report == decode_spec(func as int, data, text_view(text)),
{
    if func == REPORT_MODE {
        match text {
            Some(t) => {
                let dimming: Option<i32> = int_field(t, 1);
                let monochrome: Option<bool> = match int_field(t, 2) {
                    Some(v) => Some(v != 0),
                    None => None,
                };
                CallbackReport::Mode { mode_id: data, dimming, monochrome }
            },
            None => CallbackReport::Mode { mode_id: data, dimming: None, monochrome: None },
        }
    } else if func == REPORT_MANUAL_SLIDER {
        CallbackReport::ManualSlider(data)
    } else if func == REPORT_EYECARE_SLIDER {
        CallbackReport::EyeCareSlider(data)
    } else if func == REPORT_EREADING {
        let raw: i64 = data as i64 + 206;
        CallbackReport::EReading { grayscale: (raw / 256) as i32, temp: (raw % 256) as i32 }
    } else {
        CallbackReport::Ignored
    }
}

/// The state that the callback fills: the values that the device last
/// reported, each as it arrived.
#[derive(Debug, Clone, Copy, PartialEq, Eq, Structural)]
pub struct CallbackState {
    /// The mode identifier of the last mode report.
    pub current_mode: i32,
    /// Whether the last mode report had the monochrome overlay on.
    pub is_monochrome: bool,
    /// The mode identifier that was active when the overlay was last
    /// observed or applied.
    pub last_non_ereading_mode: i32,
    /// The last reported manual slider value.
    pub manual_slider: i32,
    /// The last reported eye-care level.
    pub eyecare_slider: i32,
    /// The last reported e-reading grayscale level.
    pub ereading_grayscale: i32,
    /// The last reported e-reading temperature.
    pub ereading_temp: i32,
    /// The last reported or successfully set dimming level.
    pub current_dimming: i32,
}

impl CallbackState {
    /// The state before any report: no mode and no dimming level known
    /// (both -1), overlay off, Normal as the mode to restore, and the
    /// sliders at their factory values.
    pub open spec fn initial() -> CallbackState {
        CallbackState {
            current_mode: -1i32,
            is_monochrome: false,
            last_non_ereading_mode: 1,
            manual_slider: 50,
            eyecare_slider: 2,
            ereading_grayscale: 3,
            ereading_temp: 562,
            current_dimming: -1i32,
        }
    }

    /// The snapshot of this state: the slider values keep their low byte,
    /// everything else is copied.
    pub open spec fn snapshot_spec(self) -> ControllerState {
        ControllerState {
            mode_id: self.current_mode,
            is_monochrome: self.is_monochrome,
            dimming: self.current_dimming,
            manual_slider: low_byte(self.manual_slider as int) as u8,
            eyecare_level: low_byte(self.eyecare_slider as int) as u8,
            ereading_grayscale: low_byte(self.ereading_grayscale as int) as u8,
            ereading_temp: low_byte(self.ereading_temp as int) as u8,
            last_non_ereading_mode: self.last_non_ereading_mode,
        }
    }

    /// This state after a report: each field that the report holds is
    /// overwritten, every other field stays.
    pub open spec fn apply_spec(self, report: CallbackReport) -> CallbackState {
        match report {
            CallbackReport::Mode { mode_id, dimming, monochrome } => CallbackState {
                current_mode: mode_id,
                current_dimming: match dimming {
                    Some(level) => level,
                    None => self.current_dimming,
                },
                is_monochrome: match monochrome {
                    Some(on) => on,
                    None => self.is_monochrome,
                },
                ..self
            },
            CallbackReport::ManualSlider(value) => CallbackState { manual_slider: value, ..self },
            CallbackReport::EyeCareSlider(level) => CallbackState { eyecare_slider: level, ..self },
            CallbackReport::EReading { grayscale, temp } => CallbackState {
                ereading_grayscale: grayscale,
                ereading_temp: temp,
                ..self
            },
            CallbackReport::Ignored => self,
        }
    }

    /// The state before any report.
    pub fn new() -> (state: CallbackState)
        ensures
            state == CallbackState::initial(),
    {
        CallbackState {
            current_mode: -1,
            is_monochrome: false,
            last_non_ereading_mode: 1,
            manual_slider: 50,
            eyecare_slider: 2,
            ereading_grayscale: 3,
            ereading_temp: 562,
            current_dimming: -1,
        }
    }

    /// Takes a snapshot of the state.
    pub fn snapshot(&self) -> (state: ControllerState)
        ensures
            state == self.snapshot_spec(),
    {
        ControllerState {
            mode_id: self.current_mode,
            is_monochrome: self.is_monochrome,
            dimming: self.current_dimming,
            manual_slider: low_byte_of(self.manual_slider),
            eyecare_level: low_byte_of(self.eyecare_slider),
            ereading_grayscale: low_byte_of(self.ereading_grayscale),
            ereading_temp: low_byte_of(self.ereading_temp),
            last_non_ereading_mode: self.last_non_ereading_mode,
        }
    }

    /// Records the mode identifier to go back to when e-reading ends.
    pub fn store_last_non_ereading_mode(&mut self, mode_id: i32)
        ensures
            *final(self) == (CallbackState { last_non_ereading_mode: mode_id, ..*old(self) }),
    {
        self.last_non_ereading_mode = mode_id;
    }

    /// Records a dimming level.
    pub fn store_dimming(&mut self, value: i32)
        ensures
            *final(self) == (CallbackState { current_dimming: value, ..*old(self) }),
    {
        self.current_dimming = value;
    }

    /// Writes what a report holds into the state.
    pub fn apply(&mut self, report: CallbackReport)
        ensures
            *final(self) == old(self).apply_spec(report),
    {
        match report {
            CallbackReport::Mode { mode_id, dimming, monochrome } => {
                if let Some(level) = dimming {
                    self.current_dimming = level;
                }
                if let Some(on) = monochrome {
                    self.is_monochrome = on;
                }
                self.current_mode = mode_id;
            },
            CallbackReport::ManualSlider(value) => {
                self.manual_slider = value;
            },
            CallbackReport::EyeCareSlider(level) => {
                self.eyecare_slider = level;
            },
            CallbackReport::EReading { grayscale, temp } => {
                self.ereading_grayscale = grayscale;
                self.ereading_temp = temp;
            },
            CallbackReport::Ignored => {},
        }
    }

    /// The callback receiver: decodes one callback of the native component
    /// and writes what it reports into the state. It never fails: input
    /// that it cannot read leaves the fields in question as they were.
    pub fn mode_callback(&mut self, func: i32, data: i32, text: Option<&[u8]>)
        ensures
            *final(self) == old(self).apply_spec(decode_spec(func as int, data, text_view(text))),
    {
        let report: CallbackReport = decode_callback(func, data, text);
        self.apply(report);
    }
}

/// The low byte of `v`.
pub fn low_byte_of(v: i32) -> (byte: u8)
    ensures
        byte == low_byte(v as int),
{
    let low: i32 = v & 0xff;
    assert(low == (v as int) % 256) by (bit_vector)
        requires
            low == v & 0xff,
    ;
    low as u8
}

/// The report of the e-reading values undoes the packing of the request
/// that sets them: a hardware grayscale level that is not negative and a
/// temperature of one byte come back as they were sent.
pub proof fn lemma_ereading_report_unpacks(hardware_grayscale: int, temp: int, text: Option<Seq<u8>>)
    requires
        0 <= hardware_grayscale,
        0 <= temp < 256,
        pack_monochrome_spec(hardware_grayscale, temp) <= i32::MAX,
    ensures
        decode_spec(
            REPORT_EREADING as int,
            pack_monochrome_spec(hardware_grayscale, temp) as i32,
            text,
        ) == (CallbackReport::EReading {
            grayscale: hardware_grayscale as i32,
            temp: temp as i32,
        }),
{
}

/// A callback touches only the fields that its operation code stands for:
/// a mode report leaves every slider value and the remembered mode, a
/// slider report leaves everything but its slider, and no report changes
/// the remembered mode.
pub proof fn lemma_callback_writes_only_its_fields(
    state: CallbackState,
    func: int,
    data: i32,
    text: Option<Seq<u8>>,
)
    ensures
        ({
            let after = state.apply_spec(decode_spec(func, data, text));
            &&& after.last_non_ereading_mode == state.last_non_ereading_mode
            &&& func != REPORT_MODE ==> after.current_mode == state.current_mode
                && after.is_monochrome == state.is_monochrome && after.current_dimming
                == state.current_dimming
            &&& func != REPORT_MANUAL_SLIDER ==> after.manual_slider == state.manual_slider
            &&& func != REPORT_EYECARE_SLIDER ==> after.eyecare_slider == state.eyecare_slider
            &&& func != REPORT_EREADING ==> after.ereading_grayscale == state.ereading_grayscale
                && after.ereading_temp == state.ereading_temp
            &&& func != REPORT_MODE && func != REPORT_MANUAL_SLIDER && func
                != REPORT_EYECARE_SLIDER && func != REPORT_EREADING ==> after == state
        }),
{
}

} // verus!
