//! Turns periodic samples of the focused window and of the user's idle time
//! into closed activity intervals, the raw material of an automatic timesheet.

pub mod laws;
pub mod macos;
pub mod model;
pub mod monitor;
pub mod sessionizer;

pub use macos::{MacOsAppInfo, MacOsMonitor};
pub use model::{ActivityInterval, EndReason, FocusSample};
pub use monitor::{ActivityMonitor, FakeMonitor};
pub use sessionizer::{SessionState, Sessionizer, IDLE_THRESHOLD_MS};
