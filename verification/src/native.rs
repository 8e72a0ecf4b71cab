//! The boundary to the native component: the entry points it exports and
//! the calls that the controller asks for.

use vstd::prelude::*;

verus! {

/// How long the caller waits when the controller asks it to settle, in
/// milliseconds. The native component answers a query only through the
/// callback, with no completion signal, so a query is followed by this wait
/// before the shared state is read.
pub const SETTLE_INTERVAL_MS: u64 = 500;

/// An entry point of the native component.
#[derive(Debug, Clone, Copy, PartialEq, Eq, Structural)]
pub enum RpcSymbol {
    /// `initialize(out handle) -> status`
    Initialize,
    /// `set_callback(callback, handle)`
    SetCallback,
    /// `get_mode(handle) -> status`
    GetColorMode,
    /// `get_manual(handle) -> status`
    GetManualMode,
    /// `get_eyecare(handle) -> status`
    GetEyecareMode,
    /// `get_monochrome(handle) -> status`
    GetMonochrome,
    /// `set_preset(value, "", handle) -> status`, for Normal and Vivid
    SetSplendid,
    /// `set_preset(value, "", handle) -> status`, for Manual
    SetSplendidManual,
    /// `set_preset(value, "", handle) -> status`, for EyeCare
    SetSplendidEyecare,
    /// `set_monochrome(packed, handle) -> status`
    SetMonochrome,
    /// `set_dimming(level, "", handle) -> status`
    SetDimming,
    /// `uninitialize(handle)`
    Uninitialize,
}

impl RpcSymbol {
    /// The name under which the native component exports the entry point.
    pub open spec fn name_spec(self) -> Seq<char> {
        match self {
            RpcSymbol::Initialize => "MyOptRpcClientInitialize"@,
            RpcSymbol::SetCallback => "SetCallbackForReturnOptimizationResult"@,
            RpcSymbol::GetColorMode => "MyOptGetSplendidColorModeFunc"@,
            RpcSymbol::GetManualMode => "MyOptGetSplendidManualModeFunc"@,
            RpcSymbol::GetEyecareMode => "MyOptGetSplendidEyecareModeFunc"@,
            RpcSymbol::GetMonochrome => "MyOptGetSplendidMonochromeFunc"@,
            RpcSymbol::SetSplendid => "MyOptSetSplendidFunc"@,
            RpcSymbol::SetSplendidManual => "MyOptSetSplendidManualFunc"@,
            RpcSymbol::SetSplendidEyecare => "MyOptSetSplendidEyecareFunc"@,
            RpcSymbol::SetMonochrome => "MyOptSetSplendidMonochromeFunc"@,
            RpcSymbol::SetDimming => "MyOptSetSplendidDimmingFunc"@,
            RpcSymbol::Uninitialize => "MyOptRpcClientUninitialize"@,
        }
    }

    /// The name under which the native component exports the entry point.
    pub fn name(&self) -> (name: &'static str)
        ensures
            name@ == self.name_spec(),
    {
        match self {
            RpcSymbol::Initialize => "MyOptRpcClientInitialize",
            RpcSymbol::SetCallback => "SetCallbackForReturnOptimizationResult",
            RpcSymbol::GetColorMode => "MyOptGetSplendidColorModeFunc",
            RpcSymbol::GetManualMode => "MyOptGetSplendidManualModeFunc",
            RpcSymbol::GetEyecareMode => "MyOptGetSplendidEyecareModeFunc",
            RpcSymbol::GetMonochrome => "MyOptGetSplendidMonochromeFunc",
            RpcSymbol::SetSplendid => "MyOptSetSplendidFunc",
            RpcSymbol::SetSplendidManual => "MyOptSetSplendidManualFunc",
            RpcSymbol::SetSplendidEyecare => "MyOptSetSplendidEyecareFunc",
            RpcSymbol::SetMonochrome => "MyOptSetSplendidMonochromeFunc",
            RpcSymbol::SetDimming => "MyOptSetSplendidDimmingFunc",
            RpcSymbol::Uninitialize => "MyOptRpcClientUninitialize",
        }
    }
}

/// The value that the native component takes and reports for the e-reading
/// overlay: the hardware grayscale level in the high part, the temperature
/// in the low byte, shifted down by 206.
pub open spec fn pack_monochrome_spec(hardware_grayscale: int, temp: int) -> int {
    hardware_grayscale * 256 + temp - 206
}

/// A call into the native component that the controller asks its caller to
/// make. Every call also passes the session handle, which the caller holds.
#[derive(Debug, Clone, Copy, PartialEq, Eq, Structural)]
pub enum NativeCall {
    /// A query: `symbol(handle)`. The answer arrives through the callback.
    Get {
        /// The entry point to call.
        symbol: RpcSymbol,
    },
    /// Applies a colour preset: `symbol(value, "", handle)`.
    SetPreset {
        /// The entry point to call.
        symbol: RpcSymbol,
        /// The preset's value: the mode identifier or the slider value.
        value: u8,
    },
    /// Applies the e-reading overlay: `set_monochrome(packed, handle)`.
    SetMonochrome {
        /// The packed grayscale level and temperature.
        packed: i32,
    },
    /// Sets the dimming level: `set_dimming(level, "", handle)`.
    SetDimming {
        /// The level, in device units.
        level: i32,
    },
}

impl NativeCall {
    /// The entry point that the call goes to.
    pub open spec fn symbol_spec(self) -> RpcSymbol {
        match self {
            NativeCall::Get { symbol } => symbol,
            NativeCall::SetPreset { symbol, .. } => symbol,
            NativeCall::SetMonochrome { .. } => RpcSymbol::SetMonochrome,
            NativeCall::SetDimming { .. } => RpcSymbol::SetDimming,
        }
    }

    /// Whether the call keeps to the limits of the device: a dimming level
    /// that it carries lies in 40..=100.
    pub open spec fn within_limits(self) -> bool {
        self matches NativeCall::SetDimming { level } ==> 40 <= level <= 100
    }

    /// The entry point that the call goes to.
    pub fn symbol(&self) -> (symbol: RpcSymbol)
        ensures
            symbol == self.symbol_spec(),
    {
        match self {
            NativeCall::Get { symbol } => *symbol,
            NativeCall::SetPreset { symbol, .. } => *symbol,
            NativeCall::SetMonochrome { .. } => RpcSymbol::SetMonochrome,
            NativeCall::SetDimming { .. } => RpcSymbol::SetDimming,
        }
    }
}

} // verus!
