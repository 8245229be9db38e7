//! The command surface and its fixed defaults.
//!
//! The values here are plain data: the argument parser at the program's edge
//! fills them in and hands them to the monitor loop.

use vstd::prelude::*;

verus! {

/// Default display refresh hint, in seconds. A hint only: the loop's actual
/// tick is `TICK_MILLISECONDS`.
pub const DEFAULT_INTERVAL_SECONDS: u64 = 5;

/// Default seconds between backup invocations.
pub const DEFAULT_BACKUP_INTERVAL_SECONDS: u64 = 600;

/// Fixed length of one tick of the monitor loop, in milliseconds.
pub const TICK_MILLISECONDS: u64 = 100;

/// Capacity of the CPU sample window the monitor keeps.
pub const DEFAULT_WINDOW_CAPACITY: usize = 60;

/// What the tool was asked to do.
pub enum Commands {
    /// Watch the host continuously, with process triage, backups, and
    /// optional email alerts.
    Monitor { interval: u64, backup_interval: u64, email: Option<String> },
    /// Capture one snapshot, print it, and exit.
    Report,
}

/// The parsed command line.
pub struct Cli {
    pub command: Commands,
}

} // verus!
