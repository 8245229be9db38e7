//! The metrics captured at one tick.
//!
//! A snapshot is an immutable value the metrics provider hands over once per
//! tick; the stats engine keeps only its scalar CPU reading, while display,
//! triage, and the side-effect dispatchers consume the rest within the tick.
//! CPU utilisation is in hundredths of a percent, temperatures in hundredths
//! of a degree Celsius, sizes in bytes.

use vstd::prelude::*;

use crate::triage::ProcessSample;

verus! {

/// One mounted disk.
#[derive(Clone)]
pub struct DiskSample {
    pub mount_point: String,
    pub available_bytes: u64,
    pub total_bytes: u64,
}

/// One hardware component temperature reading.
#[derive(Clone)]
pub struct ComponentSample {
    pub label: String,
    pub temperature_centidegrees: i64,
}

/// Everything sampled at one tick.
#[derive(Clone)]
pub struct Snapshot {
    pub cpu_usage: u32,
    pub memory_used_bytes: u64,
    pub memory_total_bytes: u64,
    pub disks: Vec<DiskSample>,
    pub components: Vec<ComponentSample>,
    pub processes: Vec<ProcessSample>,
}

} // verus!
