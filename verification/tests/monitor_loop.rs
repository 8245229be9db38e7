//! The scheduler gates, the monitor's per-tick decisions, the quit
//! transition, and the backup/report projections.

use syspulse::monitor::{next_state, Monitor, MonitorState};
use syspulse::report::{backup_record, report_of};
use syspulse::scheduler::Scheduler;
use syspulse::snapshot::{DiskSample, Snapshot};

#[test]
fn backup_fires_at_most_once_per_window() {
    let mut sch = Scheduler::new(0);
    let mut backups = 0;
    // ticks every "sub-interval" step across two 600-second windows
    for now in (0..1300).step_by(50) {
        let eff = sch.tick(now, 7000, false, 600);
        if eff.backup {
            backups += 1;
        }
    }
    // fires exactly at 600 and at 1200
    assert_eq!(backups, 2);
    assert_eq!(sch.last_backup_at, 1200);
}

#[test]
fn backup_timer_advances_only_on_invocation() {
    let mut sch = Scheduler::new(100);
    let eff = sch.tick(400, 0, false, 600);
    assert!(!eff.backup);
    assert_eq!(sch.last_backup_at, 100);
    let eff = sch.tick(700, 0, false, 600);
    assert!(eff.backup);
    assert_eq!(sch.last_backup_at, 700);
}

#[test]
fn email_cooldown_allows_at_most_one_of_two_close_ticks() {
    let mut sch = Scheduler::new(0);
    // both ticks see 85% CPU, 200 seconds apart
    let first = sch.tick(301, 8500, true, 600);
    let second = sch.tick(501, 8500, true, 600);
    assert!(first.email);
    assert!(!second.email);
    assert_eq!(sch.last_email_at, 301);
}

#[test]
fn email_needs_address_threshold_and_cooldown() {
    let mut sch = Scheduler::new(0);
    // no address configured
    assert!(!sch.tick(1000, 8500, false, 600).email);
    // CPU not strictly above 80%
    assert!(!sch.tick(2000, 8000, true, 600).email);
    // cooldown is strict: 300 seconds since the last email is not enough
    let eff = sch.tick(3000, 8100, true, 600);
    assert!(eff.email);
    assert!(!sch.tick(3300, 8100, true, 600).email);
    assert!(sch.tick(3301, 8100, true, 600).email);
}

#[test]
fn gates_are_independent() {
    let mut sch = Scheduler::new(0);
    let eff = sch.tick(601, 8500, true, 600);
    assert!(eff.backup);
    assert!(eff.email);
    assert_eq!(sch.last_backup_at, 601);
    assert_eq!(sch.last_email_at, 601);
    // only the backup gate fires; the email timer is untouched
    let eff = sch.tick(1201, 7000, true, 600);
    assert!(eff.backup);
    assert!(!eff.email);
    assert_eq!(sch.last_backup_at, 1201);
    assert_eq!(sch.last_email_at, 601);
}

#[test]
fn end_to_end_scenario() {
    // ten ticks at 70% CPU, then one at 95%
    let mut m = Monitor::new(60, 600, false, 0);
    let mut triage_ticks = Vec::new();
    for t in 1..=10u64 {
        let d = m.tick(t, 7000);
        assert!(!d.triage);
        assert_eq!(m.stats.cpu_trend(), None);
        triage_ticks.push(d.triage);
    }
    let d = m.tick(11, 9500);
    // 95% exceeds the 90% critical threshold
    assert!(d.triage);
    // average of [7000 x 10, 9500] = 79500 / 11, truncated: about 72.3%
    assert_eq!(m.stats.average_cpu(), Some(7227));
    // trend: (9500 + 4 * 7000) / 5 - 7000 = 5%
    assert_eq!(m.stats.cpu_trend(), Some(500));
}

#[test]
fn quit_transitions() {
    assert_eq!(next_state(MonitorState::Running, 'q'), MonitorState::Stopped);
    assert_eq!(next_state(MonitorState::Running, 'c'), MonitorState::Running);
    assert_eq!(next_state(MonitorState::Running, 'z'), MonitorState::Running);
    assert_eq!(next_state(MonitorState::Running, 'x'), MonitorState::Running);
    assert_eq!(next_state(MonitorState::Stopped, 'x'), MonitorState::Stopped);
    assert_eq!(next_state(MonitorState::Stopped, 'q'), MonitorState::Stopped);
}

fn sample_snapshot() -> Snapshot {
    Snapshot {
        cpu_usage: 4321,
        memory_used_bytes: 3 * 1024 * 1024 * 1024 + 5,
        memory_total_bytes: 8 * 1024 * 1024 * 1024,
        disks: vec![
            DiskSample {
                mount_point: "/".to_string(),
                available_bytes: 5 * 1024 * 1024 * 1024 + 7,
                total_bytes: 100 * 1024 * 1024 * 1024,
            },
            DiskSample {
                mount_point: "/data".to_string(),
                available_bytes: 1024 * 1024 * 1024 - 1,
                total_bytes: 2 * 1024 * 1024 * 1024,
            },
        ],
        components: vec![],
        processes: vec![],
    }
}

#[test]
fn backup_record_projects_megabytes_and_gigabytes() {
    let r = backup_record(&sample_snapshot());
    assert_eq!(r.cpu_usage, 4321);
    assert_eq!(r.memory_used_mb, 3 * 1024);
    assert_eq!(r.memory_total_mb, 8 * 1024);
    assert_eq!(r.disks_free_gb, vec![5, 0]);
}

#[test]
fn report_keeps_mounts_and_truncates_to_gigabytes() {
    let r = report_of(sample_snapshot());
    assert_eq!(r.cpu_usage, 4321);
    assert_eq!(r.memory_used_mb, 3 * 1024);
    assert_eq!(r.memory_total_mb, 8 * 1024);
    assert_eq!(r.disks.len(), 2);
    assert_eq!(r.disks[0].mount_point, "/");
    assert_eq!(r.disks[0].free_gb, 5);
    assert_eq!(r.disks[0].total_gb, 100);
    assert_eq!(r.disks[1].mount_point, "/data");
    assert_eq!(r.disks[1].free_gb, 0);
    assert_eq!(r.disks[1].total_gb, 2);
}
