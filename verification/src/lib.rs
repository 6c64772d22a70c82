//! Session controller for a single-window terminal launcher.
//!
//! The library resolves a layered configuration (command-line overrides,
//! a persisted settings file, hard-coded defaults) into one immutable
//! runtime configuration, decides what must be created on disk when the
//! settings are initialized, builds the argument vector handed to the
//! spawned shell, and drives the two small state machines of a session:
//! the child-process lifecycle and the window-lifecycle bridge.

pub mod activation;
pub mod config;
pub mod lifecycle;
pub mod numbers;
pub mod session;
pub mod settings;
pub mod size;

use vstd::prelude::*;

verus! {

/// Width used when neither the command line nor the settings file gives one.
pub const DEFAULT_WIDTH: u32 = 680;

/// Height used when neither the command line nor the settings file gives one.
pub const DEFAULT_HEIGHT: u32 = 364;

/// Floor applied to every resolved window dimension.
pub const MIN_DIMENSION: u32 = 100;

} // verus!
