//! Core of a small desktop status indicator that tracks which time-tracking
//! entry is currently running in an external command-line tool.
//!
//! The library holds the entry state machine and its synchronization protocol
//! with the external tool: user intents (refresh, edit, start, stop) become
//! state transitions of a [`controller::Controller`], and the exact command
//! lines and search path for the external tool are built by the [`gateway`]
//! module. Spawning the tool and rendering the state are left to the caller,
//! which runs the loop: ask the controller which gateway call an intent needs,
//! perform it, and hand the outcome back.

pub mod controller;
pub mod entry;
pub mod gateway;
pub mod text;
