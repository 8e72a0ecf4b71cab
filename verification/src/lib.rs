//! Display colour-mode and dimming control for ASUS Splendid panels.
//!
//! The vendor component answers every request through an asynchronous
//! callback. This crate holds the part of the controller that decides: the
//! display-mode model, the unit conversions, the decoding of callback reports
//! into the shared state, the single-instance guard, and the protocol that
//! turns each controller operation into a sequence of native calls and settle
//! waits. It performs no native call itself: the caller carries out each
//! [`Step`] and hands the result back.

pub mod callback_state;
pub mod controller;
pub mod dimming;
pub mod error;
pub mod guard;
pub mod mock;
pub mod modes;
pub mod native;
pub mod payload;
pub mod protocol;
pub mod session;
pub mod state;

pub use callback_state::{decode_callback, CallbackReport, CallbackState};
pub use controller::{AsusController, DisplayController};
pub use error::ControllerError;
pub use guard::InstanceGuard;
pub use mock::MockController;
pub use modes::{
    DisplayMode, EReadingMode, EyeCareMode, ManualMode, NormalMode, SplendidMode, VividMode,
};
pub use native::{NativeCall, RpcSymbol, SETTLE_INTERVAL_MS};
pub use protocol::{AfterCall, AfterSettle, ModeGoal, Outcome, Step};
pub use session::{InitReport, Opening, Registering};
pub use state::ControllerState;
