//! Device registry and session manager for USB-attached graphing calculators.
//!
//! The library keeps the table of known devices, decides what a discovery
//! probe, a hotplug event or an enumeration pass does to that table, tracks
//! the open/closed session of each device, translates the failures of session
//! operations, and throttles transfer progress. The USB calls themselves are
//! made by the caller, which hands their results to the functions here.

pub mod text;
pub mod usb;
pub mod link;
pub mod cmd;
pub mod registry;
pub mod progress;
pub mod session;
pub mod hotplug;
pub mod laws;

pub use crate::registry::{Device, DeviceState};
pub use crate::session::SerializedError;
