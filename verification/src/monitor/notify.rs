//! System-wide threshold notifications.
//!
//! When CPU or RAM usage exceeds a configured threshold (and the cooldown
//! period has elapsed since the last alert for that metric), an alert is
//! raised for that metric.
//!
//! A threshold of 0 means "disabled" for that metric.
//!
//! Times are monotonic clock readings in nanoseconds, all taken from the
//! same origin.
use vstd::prelude::*;

verus! {

/// The cooldown a fresh configuration starts with (5 minutes).
pub const DEFAULT_COOLDOWN_SECS: u64 = 300;

/// The shortest cooldown the settings offer.
pub const MIN_COOLDOWN_SECS: u64 = 30;

/// How far in the past a fresh watcher places its last alerts: half of the
/// largest number of seconds, in nanoseconds.
pub const FAR_PAST_NS: i128 = 9_223_372_036_854_775_807_000_000_000i128;

/// User-configurable notification settings, as read at one moment.
#[derive(Clone, Copy, Debug, PartialEq, Eq, Structural)]
pub struct Thresholds {
    /// CPU usage percentage (0–100). 0 = notifications disabled.
    pub cpu_pct: u8,
    /// RAM usage percentage (0–100). 0 = notifications disabled.
    pub ram_pct: u8,
    /// Minimum seconds between two notifications for the *same* metric.
    /// Avoids spam when a threshold is crossed repeatedly.
    pub cooldown_secs: u64,
}

impl Default for Thresholds {
    /// Both metrics disabled, with the default cooldown.
    fn default() -> (r: Thresholds)
        ensures
            r.cpu_pct == 0,
            r.ram_pct == 0,
            r.cooldown_secs == DEFAULT_COOLDOWN_SECS,
    {
        Thresholds { cpu_pct: 0, ram_pct: 0, cooldown_secs: DEFAULT_COOLDOWN_SECS }
    }
}

/// The time from `last_ns` to `now_ns`, or zero if `now_ns` is earlier.
pub open spec fn elapsed_ns(last_ns: int, now_ns: int) -> int {
    if now_ns >= last_ns {
        now_ns - last_ns
    } else {
        0
    }
}

/// Whether a metric alerts: its threshold is enabled, the usage exceeds it,
/// and at least the cooldown has passed since its last alert.
pub open spec fn fires(limit: u8, exceeded: bool, last_ns: int, now_ns: int, cooldown_secs: u64) -> bool {
    &&& limit > 0
    &&& exceeded
    &&& elapsed_ns(last_ns, now_ns) >= cooldown_secs as int * 1_000_000_000
}

/// The metrics to notify about after a check, each with the threshold it
/// exceeded.
#[derive(Clone, Copy, Debug, PartialEq, Eq, Structural)]
pub struct Alerts {
    pub cpu: Option<u8>,
    pub ram: Option<u8>,
}

/// What a check with `thresholds` at `now_ns` does to the watcher `before`,
/// leaving `after`, and returns (`r`): the thresholds are kept; each metric
/// that fires (see `fires`) is reported with its threshold and has its last
/// alert moved to `now_ns`; a metric that does not fire is not reported and
/// keeps its last alert.
pub open spec fn check_post(
    before: Watcher,
    after: Watcher,
    thresholds: Thresholds,
    cpu_exceeded: bool,
    ram_exceeded: bool,
    now_ns: u64,
    r: Alerts,
) -> bool {
    &&& after.thresholds() == thresholds
    &&& r.cpu == (if fires(thresholds.cpu_pct, cpu_exceeded, before.last_cpu_ns(), now_ns as int, thresholds.cooldown_secs) {
        Some(thresholds.cpu_pct)
    } else {
        None::<u8>
    })
    &&& r.ram == (if fires(thresholds.ram_pct, ram_exceeded, before.last_ram_ns(), now_ns as int, thresholds.cooldown_secs) {
        Some(thresholds.ram_pct)
    } else {
        None::<u8>
    })
    &&& after.last_cpu_ns() == (if r.cpu is Some {
        now_ns as int
    } else {
        before.last_cpu_ns()
    })
    &&& after.last_ram_ns() == (if r.ram is Some {
        now_ns as int
    } else {
        before.last_ram_ns()
    })
}

/// Per-metric notification state: tracks the last time a threshold was
/// breached so the cooldown can be enforced.
pub struct Watcher {
    thresholds: Thresholds,
    last_cpu_ns: i128,
    last_ram_ns: i128,
}

impl Watcher {
    /// The last alerts lie between the far past of a fresh watcher and the
    /// latest clock reading.
    #[verifier::type_invariant]
    spec fn alert_times_in_range(&self) -> bool {
        &&& -FAR_PAST_NS <= self.last_cpu_ns <= u64::MAX as i128
        &&& -FAR_PAST_NS <= self.last_ram_ns <= u64::MAX as i128
    }

    /// The thresholds as last read.
    pub closed spec fn thresholds(&self) -> Thresholds {
        self.thresholds
    }

    /// When the last CPU alert was raised.
    pub closed spec fn last_cpu_ns(&self) -> int {
        self.last_cpu_ns as int
    }

    /// When the last RAM alert was raised.
    pub closed spec fn last_ram_ns(&self) -> int {
        self.last_ram_ns as int
    }

    /// A watcher created at `now_ns`. Both last alerts are placed far in the
    /// past so the *first* breach fires immediately — the user has just
    /// configured thresholds.
    pub fn new(thresholds: Thresholds, now_ns: u64) -> (r: Watcher)
        ensures
            r.thresholds() == thresholds,
            r.last_cpu_ns() == now_ns as int - FAR_PAST_NS,
            r.last_ram_ns() == now_ns as int - FAR_PAST_NS,
    {
        let start: i128 = now_ns as i128 - FAR_PAST_NS;
        Watcher { thresholds, last_cpu_ns: start, last_ram_ns: start }
    }

    /// The thresholds as last read.
    pub fn current_thresholds(&self) -> (r: Thresholds)
        ensures
            r == self.thresholds(),
    {
        self.thresholds
    }

    /// Check system metrics against the thresholds read at `now_ns`.
    /// `cpu_exceeded` and `ram_exceeded` tell whether the usage is
    /// above the respective threshold. Each metric that alerts has its last
    /// alert moved to `now_ns`; the other keeps it.
    pub fn check(&mut self, thresholds: Thresholds, cpu_exceeded: bool, ram_exceeded: bool, now_ns: u64) -> (r: Alerts)
        ensures
            check_post(*old(self), *final(self), thresholds, cpu_exceeded, ram_exceeded, now_ns, r),
    {
        proof {
            use_type_invariant(&*self);
        }
        self.thresholds = thresholds;
        let cooldown_ns: i128 = thresholds.cooldown_secs as i128 * 1_000_000_000i128;
        let now: i128 = now_ns as i128;

        let cpu_limit = thresholds.cpu_pct;
        let cpu_elapsed: i128 = if now >= self.last_cpu_ns {
            now - self.last_cpu_ns
        } else {
            0
        };
        let cpu = if cpu_limit > 0 && cpu_exceeded && cpu_elapsed >= cooldown_ns {
            self.last_cpu_ns = now;
            Some(cpu_limit)
        } else {
            None
        };

        let ram_limit = thresholds.ram_pct;
        let ram_elapsed: i128 = if now >= self.last_ram_ns {
            now - self.last_ram_ns
        } else {
            0
        };
        let ram = if ram_limit > 0 && ram_exceeded && ram_elapsed >= cooldown_ns {
            self.last_ram_ns = now;
            Some(ram_limit)
        } else {
            None
        };
        Alerts { cpu, ram }
    }
}

/// A threshold of 0 disables its metric: it never alerts.
pub proof fn law_zero_threshold_never_fires(exceeded: bool, last_ns: int, now_ns: int, cooldown_secs: u64)
    ensures
        !fires(0, exceeded, last_ns, now_ns, cooldown_secs),
{
}

/// A metric whose usage does not exceed its threshold never alerts.
pub proof fn law_not_exceeded_never_fires(limit: u8, last_ns: int, now_ns: int, cooldown_secs: u64)
    ensures
        !fires(limit, false, last_ns, now_ns, cooldown_secs),
{
}

/// The first breach after a watcher is created fires immediately, whatever
/// the cooldown up to half of the largest number of seconds.
pub proof fn law_first_breach_fires(limit: u8, created_ns: u64, now_ns: u64, cooldown_secs: u64)
    requires
        limit > 0,
        created_ns <= now_ns,
        cooldown_secs <= u64::MAX / 2,
    ensures
        fires(limit, true, created_ns as int - FAR_PAST_NS, now_ns as int, cooldown_secs),
{
    assert(cooldown_secs as int * 1_000_000_000 <= FAR_PAST_NS) by (nonlinear_arith)
        requires
            cooldown_secs <= 9_223_372_036_854_775_807u64,
    ;
}

/// Once a metric has alerted at `alert_ns`, it does not alert again before
/// the cooldown has passed.
pub proof fn law_no_repeat_within_cooldown(limit: u8, exceeded: bool, alert_ns: u64, now_ns: u64, cooldown_secs: u64)
    requires
        alert_ns <= now_ns,
        (now_ns as int) < alert_ns as int + cooldown_secs as int * 1_000_000_000,
    ensures
        !fires(limit, exceeded, alert_ns as int, now_ns as int, cooldown_secs),
{
}

/// Once the cooldown has passed since its last alert, a metric that exceeds
/// its enabled threshold alerts again.
pub proof fn law_fires_again_after_cooldown(limit: u8, alert_ns: u64, now_ns: u64, cooldown_secs: u64)
    requires
        limit > 0,
        now_ns as int >= alert_ns as int + cooldown_secs as int * 1_000_000_000,
    ensures
        fires(limit, true, alert_ns as int, now_ns as int, cooldown_secs),
{
}

/// After a metric alerts, later checks stay quiet for that metric until the
/// cooldown in force has passed, whatever the usage.
pub proof fn law_quiet_after_alert(
    w0: Watcher,
    w1: Watcher,
    th1: Thresholds,
    cpu1: bool,
    ram1: bool,
    t1: u64,
    r1: Alerts,
    w2: Watcher,
    th2: Thresholds,
    cpu2: bool,
    ram2: bool,
    t2: u64,
    r2: Alerts,
)
    requires
        check_post(w0, w1, th1, cpu1, ram1, t1, r1),
        check_post(w1, w2, th2, cpu2, ram2, t2, r2),
        t1 <= t2,
        (t2 as int) < t1 as int + th2.cooldown_secs as int * 1_000_000_000,
    ensures
        r1.cpu is Some ==> r2.cpu is None,
        r1.ram is Some ==> r2.ram is None,
{
}

/// A metric whose usage exceeds its enabled threshold alerts, reporting
/// that threshold, as soon as the cooldown has passed since its last alert.
pub proof fn law_alert_reports_threshold(
    w0: Watcher,
    w1: Watcher,
    th: Thresholds,
    t: u64,
    r: Alerts,
)
    requires
        check_post(w0, w1, th, true, true, t, r),
    ensures
        th.cpu_pct > 0 && t as int >= w0.last_cpu_ns() + th.cooldown_secs as int * 1_000_000_000 ==> r.cpu
            == Some(th.cpu_pct) && w1.last_cpu_ns() == t as int,
        th.ram_pct > 0 && t as int >= w0.last_ram_ns() + th.cooldown_secs as int * 1_000_000_000 ==> r.ram
            == Some(th.ram_pct) && w1.last_ram_ns() == t as int,
{
}

} // verus!
