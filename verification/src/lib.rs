//! SysPulse core: the verified sampling, triage, and scheduling logic of a
//! host-monitoring tool.
//!
//! The crate holds the parts of the monitor that carry state and make
//! decisions: a fixed-capacity rolling window of CPU samples with moving
//! average and short-term trend (`stats`), the threshold-driven process
//! triage policy (`triage`), the interval gates for the backup and email
//! side effects (`scheduler`), the per-tick orchestration (`monitor`), and
//! the plain data carried between them (`cli`, `snapshot`, `report`).
//!
//! CPU utilisation is represented throughout as a fixed-point integer in
//! hundredths of a percent (`9000` means `90.00%`), so that every
//! computation on it can be specified and verified exactly.

pub mod cli;
pub mod monitor;
pub mod report;
pub mod scheduler;
pub mod snapshot;
pub mod stats;
pub mod triage;
