//! The records written by the backup writer and the one-shot report.
//!
//! Both side effects serialise a fixed projection of the current snapshot:
//! memory in whole megabytes and disk space in whole gigabytes, truncated.
//! This module computes those projections; attaching a timestamp and turning
//! a record into JSON on disk or on standard output is the caller's side
//! effect.

use vstd::prelude::*;

use crate::snapshot::{DiskSample, Snapshot};

verus! {

pub const BYTES_PER_MB: u64 = 1024 * 1024;

pub const BYTES_PER_GB: u64 = 1024 * 1024 * 1024;

/// One backup line: overall CPU, memory in MB, and each disk's free space
/// in GB, in disk enumeration order.
pub struct BackupRecord {
    pub cpu_usage: u32,
    pub memory_used_mb: u64,
    pub memory_total_mb: u64,
    pub disks_free_gb: Vec<u64>,
}

/// One disk as it appears in the one-shot report.
pub struct ReportDisk {
    pub mount_point: String,
    pub free_gb: u64,
    pub total_gb: u64,
}

/// The one-shot report: overall CPU, memory in MB, and every disk with its
/// free and total space in GB.
pub struct Report {
    pub cpu_usage: u32,
    pub memory_used_mb: u64,
    pub memory_total_mb: u64,
    pub disks: Vec<ReportDisk>,
}

/// The report projection of one disk.
pub open spec fn report_disk_of(d: DiskSample) -> ReportDisk {
    ReportDisk {
        mount_point: d.mount_point,
        free_gb: d.available_bytes / BYTES_PER_GB,
        total_gb: d.total_bytes / BYTES_PER_GB,
    }
}

/// The projection of the snapshot that one backup line carries.
pub fn backup_record(snap: &Snapshot) -> (r: BackupRecord)
    ensures
        r.cpu_usage == snap.cpu_usage,
        r.memory_used_mb == snap.memory_used_bytes / BYTES_PER_MB,
        r.memory_total_mb == snap.memory_total_bytes / BYTES_PER_MB,
        r.disks_free_gb@.len() == snap.disks@.len(),
        forall|i: int|
            0 <= i < snap.disks@.len() ==> #[trigger] r.disks_free_gb@[i] == snap.disks@[i].available_bytes
                / BYTES_PER_GB,
{
    let mut disks_free_gb: Vec<u64> = Vec::new();
    let mut i: usize = 0;
    while i < snap.disks.len()
        invariant
            i <= snap.disks@.len(),
            disks_free_gb@.len() == i,
            forall|j: int|
                0 <= j < i ==> #[trigger] disks_free_gb@[j] == snap.disks@[j].available_bytes
                    / BYTES_PER_GB,
        decreases snap.disks@.len() - i,
    {
        disks_free_gb.push(snap.disks[i].available_bytes / BYTES_PER_GB);
        i = i + 1;
    }
    BackupRecord {
        cpu_usage: snap.cpu_usage,
        memory_used_mb: snap.memory_used_bytes / BYTES_PER_MB,
        memory_total_mb: snap.memory_total_bytes / BYTES_PER_MB,
        disks_free_gb,
    }
}

/// The projection of the snapshot that the one-shot report carries.
pub fn report_of(snap: Snapshot) -> (r: Report)
    ensures
        r.cpu_usage == snap.cpu_usage,
        r.memory_used_mb == snap.memory_used_bytes / BYTES_PER_MB,
        r.memory_total_mb == snap.memory_total_bytes / BYTES_PER_MB,
        r.disks@.len() == snap.disks@.len(),
        forall|i: int|
            0 <= i < snap.disks@.len() ==> #[trigger] r.disks@[i] == report_disk_of(
                snap.disks@[i],
            ),
{
    let ghost all = snap.disks@;
    let mut rest = snap.disks;
    let mut disks: Vec<ReportDisk> = Vec::new();
    while rest.len() > 0
        invariant
            rest@.len() <= all.len(),
            rest@ == all.skip(all.len() - rest@.len()),
            disks@.len() == all.len() - rest@.len(),
            forall|j: int|
                0 <= j < disks@.len() ==> #[trigger] disks@[j] == report_disk_of(all[j]),
        decreases rest.len(),
    {
        let ghost k = all.len() - rest@.len();
        let d = rest.remove(0);
        proof {
            assert(d == all[k as int]);
            assert(rest@ =~= all.skip(k + 1));
        }
        disks.push(
            ReportDisk {
                mount_point: d.mount_point,
                free_gb: d.available_bytes / BYTES_PER_GB,
                total_gb: d.total_bytes / BYTES_PER_GB,
            },
        );
        proof {
            assert(disks@[k as int] == report_disk_of(all[k as int]));
        }
    }
    Report {
        cpu_usage: snap.cpu_usage,
        memory_used_mb: snap.memory_used_bytes / BYTES_PER_MB,
        memory_total_mb: snap.memory_total_bytes / BYTES_PER_MB,
        disks,
    }
}

} // verus!
