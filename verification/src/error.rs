//! What can go wrong in the controller.

use vstd::prelude::*;

verus! {

/// The error of `libloading`: a library or one of its entry points could not
/// be loaded. The controller carries it through; it never looks inside.
#[verifier::external_type_specification]
#[verifier::external_body]
pub struct ExLoadError(libloading::Error);

/// The error of `std::io`, carried through in the same way.
#[verifier::external_type_specification]
#[verifier::external_body]
pub struct ExIoError(std::io::Error);

/// Errors that can occur when using the display controller.
#[derive(Debug)]
pub enum ControllerError {
    /// The vendor package was not found; carries the native status code.
    PackageNotFound(u32),
    /// The installation path of the vendor package could not be read;
    /// carries the native status code.
    PackagePathError(u32),
    /// The native component, or one of its entry points, could not be loaded.
    DllLoad(libloading::Error),
    /// The native initialize call did not succeed.
    RpcInitFailed,
    /// A controller is already live: only one may exist at a time.
    AlreadyInitialized,
    /// A slider value was outside the valid range of its mode.
    InvalidSliderValue {
        /// The mode name.
        mode: &'static str,
        /// The value that was refused.
        value: u8,
        /// Lowest accepted value.
        min: u8,
        /// Highest accepted value.
        max: u8,
    },
    /// The native binary could not be copied or located.
    Io(std::io::Error),
    /// The snapshot does not resolve to a known display mode.
    ModeNotDetected,
    /// The native set-dimming call returned this nonzero status.
    DimmingFailed(i64),
}

} // verus!
