//! Emulate Nintendo Switch controllers over Bluetooth.

use vstd::prelude::*;

pub mod bluetooth;
pub mod controller;
pub mod error;
pub mod protocol;
pub mod text;

pub use controller::Controller;
pub use error::{Error, ErrorKind};

verus! {

/// Enumeration for the levels at which messages are logged.
#[derive(Clone, Copy, Debug, PartialEq, Eq, Structural)]
pub enum LevelFilter {
    /// Represents the level of ordinary messages.
    Info,
    /// Represents the level of messages for debugging.
    Debug,
    /// Represents the level of every message.
    Trace,
}

/// The level for a verbosity: ordinary messages without the flag, debugging
/// with one, everything with more.
pub open spec fn spec_level(verbose: usize) -> LevelFilter {
    if verbose == 0 {
        LevelFilter::Info
    } else if verbose == 1 {
        LevelFilter::Debug
    } else {
        LevelFilter::Trace
    }
}

/// Selects the level at which the logger is to be set for the verbosity.
pub fn set_logger(verbose: usize) -> (level: LevelFilter)
    ensures
        level == spec_level(verbose),
{
    match verbose {
        0 => LevelFilter::Info,
        1 => LevelFilter::Debug,
        _ => LevelFilter::Trace,
    }
}

} // verus!
