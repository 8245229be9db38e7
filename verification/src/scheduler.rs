//! Interval gating of the backup and email side effects.
//!
//! The scheduler owns two timestamps: when the backup writer and the email
//! notifier were last invoked. Each tick it decides, independently for each
//! effect, whether the effect is due now; a timer advances exactly when its
//! effect is dispatched, whether or not the dispatch later succeeds.

use vstd::prelude::*;

verus! {

/// CPU utilisation (hundredths of a percent) above which an email alert is
/// considered.
pub const EMAIL_CPU_THRESHOLD: u32 = 8000;

/// Minimum seconds that must have passed (strictly) since the last email
/// before another one is sent.
pub const EMAIL_COOLDOWN_SECONDS: u64 = 300;

/// The backup writer is due when at least `interval` seconds have passed
/// since it was last invoked.
pub open spec fn backup_gate(last_backup_at: int, now: int, interval: int) -> bool {
    now - last_backup_at >= interval
}

/// The email notifier is due when an address is configured, the CPU
/// utilisation is above the alert threshold, and strictly more than the
/// cooldown has passed since the last email.
pub open spec fn email_gate(last_email_at: int, now: int, cpu_usage: int, configured: bool) -> bool {
    configured && cpu_usage > EMAIL_CPU_THRESHOLD && now - last_email_at
        > EMAIL_COOLDOWN_SECONDS
}

/// What a single tick asks the caller to dispatch.
pub struct TickEffects {
    pub backup: bool,
    pub email: bool,
}

/// The two side-effect timers.
pub struct Scheduler {
    pub last_backup_at: u64,
    pub last_email_at: u64,
}

impl Scheduler {
    /// A scheduler whose timers both start at `now`.
    pub fn new(now: u64) -> (s: Scheduler)
        ensures
            s.last_backup_at == now,
            s.last_email_at == now,
    {
        Scheduler { last_backup_at: now, last_email_at: now }
    }

    /// Evaluate both gates at time `now` and advance the timer of each
    /// effect that fires. The two gates are independent: firing one never
    /// touches the other's timer.
    pub fn tick(
        &mut self,
        now: u64,
        cpu_usage: u32,
        email_configured: bool,
        backup_interval: u64,
    ) -> (eff: TickEffects)
        requires
            old(self).last_backup_at <= now,
            old(self).last_email_at <= now,
        ensures
            eff.backup == backup_gate(
                old(self).last_backup_at as int,
                now as int,
                backup_interval as int,
            ),
            eff.email == email_gate(
                old(self).last_email_at as int,
                now as int,
                cpu_usage as int,
                email_configured,
            ),
            final(self).last_backup_at == if eff.backup {
                now
            } else {
                old(self).last_backup_at
            },
            final(self).last_email_at == if eff.email {
                now
            } else {
                old(self).last_email_at
            },
            final(self).last_backup_at <= now,
            final(self).last_email_at <= now,
    {
        let backup = now - self.last_backup_at >= backup_interval;
        if backup {
            self.last_backup_at = now;
        }
        let email = email_configured && cpu_usage > EMAIL_CPU_THRESHOLD && now
            - self.last_email_at > EMAIL_COOLDOWN_SECONDS;
        if email {
            self.last_email_at = now;
        }
        TickEffects { backup, email }
    }
}

/// How many times the backup gate fires over a run of ticks at the given
/// times, starting from a given timer value; the timer advances to the tick
/// time on every firing.
pub open spec fn backup_count(last_backup_at: int, times: Seq<int>, interval: int) -> nat
    decreases times.len(),
{
    if times.len() == 0 {
        0
    } else if backup_gate(last_backup_at, times.first(), interval) {
        1 + backup_count(times.first(), times.drop_first(), interval)
    } else {
        backup_count(last_backup_at, times.drop_first(), interval)
    }
}

/// Once the backup timer stands at or after `lo`, no tick earlier than
/// `lo + interval` fires the backup gate again.
pub proof fn lemma_backup_none_in_window(
    last_backup_at: int,
    times: Seq<int>,
    interval: int,
    lo: int,
)
    requires
        lo <= last_backup_at,
        forall|i: int| 0 <= i < times.len() ==> #[trigger] times[i] < lo + interval,
    ensures
        backup_count(last_backup_at, times, interval) == 0,
    decreases times.len(),
{
    if times.len() > 0 {
        assert(times[0] < lo + interval);
        lemma_backup_none_in_window(last_backup_at, times.drop_first(), interval, lo);
    }
}

/// Backup idempotence under sub-interval ticks: however densely ticks occur,
/// all ticks falling inside one window of `interval` seconds invoke the
/// backup writer at most once.
pub proof fn lemma_backup_at_most_once_per_window(
    last_backup_at: int,
    times: Seq<int>,
    interval: int,
    lo: int,
)
    requires
        forall|i: int| 0 <= i < times.len() ==> lo <= #[trigger] times[i] < lo + interval,
    ensures
        backup_count(last_backup_at, times, interval) <= 1,
    decreases times.len(),
{
    if times.len() > 0 {
        assert(lo <= times[0] < lo + interval);
        if backup_gate(last_backup_at, times.first(), interval) {
            lemma_backup_none_in_window(times.first(), times.drop_first(), interval, lo);
        } else {
            lemma_backup_at_most_once_per_window(last_backup_at, times.drop_first(), interval, lo);
        }
    }
}

/// Email cooldown: when the email gate fires at time `t1`, it cannot fire
/// again at any time `t2` within the cooldown, whatever the CPU readings
/// were; two such ticks send at most one email.
pub proof fn lemma_email_cooldown(
    last_email_at: int,
    t1: int,
    t2: int,
    cpu1: int,
    cpu2: int,
    configured: bool,
)
    requires
        t2 - t1 <= EMAIL_COOLDOWN_SECONDS,
    ensures
        email_gate(last_email_at, t1, cpu1, configured) ==> !email_gate(t1, t2, cpu2, configured),
{
}

} // verus!
