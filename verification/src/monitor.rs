//! The per-tick decisions of the monitor loop.
//!
//! The loop has two macro-states, running and stopped, and leaves the
//! running state only on an explicit quit input. Each tick feeds the CPU
//! reading into the stats window, decides whether triage must run, and
//! evaluates the two side-effect gates; performing the render, the prompts,
//! and the dispatches is the caller's job.

use vstd::prelude::*;

use crate::scheduler::{backup_gate, email_gate, Scheduler};
use crate::stats::{push_evict, Stats};
use crate::triage::CRITICAL_CPU_THRESHOLD;

verus! {

/// The two macro-states of the monitor loop.
#[derive(Clone, Copy, PartialEq, Eq, Structural, Debug)]
pub enum MonitorState {
    Running,
    Stopped,
}

/// What one tick asks the caller to do, besides rendering.
pub struct TickDecision {
    /// Run process triage this tick.
    pub triage: bool,
    /// Invoke the backup writer this tick.
    pub backup: bool,
    /// Invoke the email notifier this tick.
    pub email: bool,
}

/// The cross-tick state of the monitor: the sample window and the two
/// side-effect timers, with the configuration they are gated by.
pub struct Monitor {
    pub stats: Stats,
    pub scheduler: Scheduler,
    pub email_configured: bool,
    pub backup_interval: u64,
}

/// The quit control: the one designated key.
pub open spec fn quit_requested(key: char) -> bool {
    key == 'q'
}

/// The only transition out of the running state is the designated quit key;
/// no other input ends the loop.
pub fn next_state(state: MonitorState, key: char) -> (r: MonitorState)
    ensures
        r == if quit_requested(key) {
            MonitorState::Stopped
        } else {
            state
        },
{
    if key == 'q' {
        MonitorState::Stopped
    } else {
        state
    }
}

impl Monitor {
    /// The sample window never exceeds its capacity.
    pub open spec fn wf(&self) -> bool {
        self.stats.wf()
    }

    /// A monitor with an empty sample window and both timers starting at
    /// `start_time`.
    pub fn new(
        window_capacity: usize,
        backup_interval: u64,
        email_configured: bool,
        start_time: u64,
    ) -> (m: Monitor)
        ensures
            m.wf(),
            m.stats.history() == Seq::<u32>::empty(),
            m.stats.cap() == window_capacity,
            m.scheduler.last_backup_at == start_time,
            m.scheduler.last_email_at == start_time,
            m.email_configured == email_configured,
            m.backup_interval == backup_interval,
    {
        Monitor {
            stats: Stats::new(window_capacity),
            scheduler: Scheduler::new(start_time),
            email_configured,
            backup_interval,
        }
    }

    /// One tick at time `now` with the fresh CPU reading: record the sample,
    /// gate triage on the critical threshold, and evaluate both side-effect
    /// gates, advancing the timer of each effect that fires.
    pub fn tick(&mut self, now: u64, cpu_usage: u32) -> (d: TickDecision)
        requires
            old(self).wf(),
            old(self).scheduler.last_backup_at <= now,
            old(self).scheduler.last_email_at <= now,
        ensures
            final(self).wf(),
            final(self).stats.cap() == old(self).stats.cap(),
            final(self).stats.history() == push_evict(
                old(self).stats.history(),
                old(self).stats.cap(),
                cpu_usage,
            ),
            d.triage == (cpu_usage > CRITICAL_CPU_THRESHOLD),
            d.backup == backup_gate(
                old(self).scheduler.last_backup_at as int,
                now as int,
                old(self).backup_interval as int,
            ),
            d.email == email_gate(
                old(self).scheduler.last_email_at as int,
                now as int,
                cpu_usage as int,
                old(self).email_configured,
            ),
            final(self).scheduler.last_backup_at == if d.backup {
                now
            } else {
                old(self).scheduler.last_backup_at
            },
            final(self).scheduler.last_email_at == if d.email {
                now
            } else {
                old(self).scheduler.last_email_at
            },
            final(self).scheduler.last_backup_at <= now,
            final(self).scheduler.last_email_at <= now,
            final(self).email_configured == old(self).email_configured,
            final(self).backup_interval == old(self).backup_interval,
    {
        self.stats.update(cpu_usage);
        let triage = cpu_usage > CRITICAL_CPU_THRESHOLD;
        let eff = self.scheduler.tick(now, cpu_usage, self.email_configured, self.backup_interval);
        TickDecision { triage, backup: eff.backup, email: eff.email }
    }
}

} // verus!
