//! The triage policy: heavy-set ranking, idle-set filtering, the critical
//! gate, and operator-reply parsing.

use syspulse::triage::{
    heavy_candidates, idle_candidates, is_affirmative, should_triage, ProcessSample,
};

fn proc(pid: u64, cpu_usage: u32, run_time_seconds: u64) -> ProcessSample {
    ProcessSample {
        pid,
        name: format!("proc-{pid}"),
        exe_path: format!("/usr/bin/proc-{pid}"),
        cpu_usage,
        memory_bytes: 1024 * 1024,
        run_time_seconds,
    }
}

#[test]
fn heavy_set_is_sorted_descending_and_capped_at_three() {
    // CPU usages 5%, 15%, 40%, 12%, 90%; the heavy threshold is 10%
    let procs = vec![
        proc(1, 500, 10),
        proc(2, 1500, 10),
        proc(3, 4000, 10),
        proc(4, 1200, 10),
        proc(5, 9000, 10),
    ];
    let heavy = heavy_candidates(procs);
    let cpus: Vec<u32> = heavy.iter().map(|p| p.cpu_usage).collect();
    assert_eq!(cpus, vec![9000, 4000, 1500]);
    let pids: Vec<u64> = heavy.iter().map(|p| p.pid).collect();
    assert_eq!(pids, vec![5, 3, 2]);
}

#[test]
fn heavy_set_keeps_everything_when_fewer_than_three() {
    let procs = vec![proc(1, 1500, 10), proc(2, 500, 10)];
    let heavy = heavy_candidates(procs);
    assert_eq!(heavy.len(), 1);
    assert_eq!(heavy[0].pid, 1);
}

#[test]
fn heavy_set_keeps_enumeration_order_on_ties() {
    let procs = vec![
        proc(1, 2000, 10),
        proc(2, 5000, 10),
        proc(3, 2000, 10),
        proc(4, 2000, 10),
    ];
    let heavy = heavy_candidates(procs);
    let pids: Vec<u64> = heavy.iter().map(|p| p.pid).collect();
    // equal-cpu candidates stay in enumeration order: 1 before 3 (4 is capped off)
    assert_eq!(pids, vec![2, 1, 3]);
}

#[test]
fn heavy_threshold_is_strict() {
    let procs = vec![proc(1, 1000, 10), proc(2, 1001, 10)];
    let heavy = heavy_candidates(procs);
    assert_eq!(heavy.len(), 1);
    assert_eq!(heavy[0].pid, 2);
}

#[test]
fn idle_filter_boundaries() {
    let procs = vec![
        proc(1, 50, 3601),  // 0.5% CPU, over an hour: idle
        proc(2, 50, 3600),  // exactly an hour: excluded, strictly more required
        proc(3, 100, 5000), // exactly 1.0% CPU: excluded, strictly less required
    ];
    let idle = idle_candidates(procs);
    assert_eq!(idle.len(), 1);
    assert_eq!(idle[0].pid, 1);
}

#[test]
fn idle_set_keeps_enumeration_order_and_caps_at_three() {
    let procs = vec![
        proc(7, 10, 4000),
        proc(3, 20, 4000),
        proc(9, 0, 4000),
        proc(4, 30, 4000),
    ];
    let idle = idle_candidates(procs);
    let pids: Vec<u64> = idle.iter().map(|p| p.pid).collect();
    assert_eq!(pids, vec![7, 3, 9]);
}

#[test]
fn triage_gate_is_strictly_above_ninety_percent() {
    assert!(!should_triage(9000));
    assert!(should_triage(9001));
}

#[test]
fn affirmative_replies() {
    assert!(is_affirmative(&b"y".to_vec()));
    assert!(is_affirmative(&b"Y".to_vec()));
    assert!(is_affirmative(&b" y\n".to_vec()));
    assert!(is_affirmative(&b"\tY\r\n".to_vec()));
    assert!(!is_affirmative(&b"".to_vec()));
    assert!(!is_affirmative(&b"n".to_vec()));
    assert!(!is_affirmative(&b"yes".to_vec()));
    assert!(!is_affirmative(&b"y y".to_vec()));
    assert!(!is_affirmative(&b"  \n".to_vec()));
}
