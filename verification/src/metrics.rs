//! The numbers that the server publishes, and the rules of the endpoint that serves
//! them.

use vstd::prelude::*;
use crate::config::{MetricsServerConfig, MetricsServerConfigView};
use crate::keyed::Keyed;
use crate::text::{strip_prefix, trimmed};

verus! {

/// What was seen of the waits for one lock.
#[derive(Debug, Clone, Copy, PartialEq, Eq, Structural)]
pub struct WaitStats {
    pub count: u64,
    pub total_nanos: u128,
    pub worst_nanos: u64,
}

/// The statistics after one more wait. Count and total stop at their largest value.
pub open spec fn after_wait(seen: WaitStats, waited_nanos: u64) -> WaitStats {
    WaitStats {
        count: if seen.count < u64::MAX {
            (seen.count + 1) as u64
        } else {
            u64::MAX
        },
        total_nanos: if seen.total_nanos + waited_nanos <= u128::MAX {
            (seen.total_nanos + waited_nanos) as u128
        } else {
            u128::MAX
        },
        worst_nanos: if waited_nanos > seen.worst_nanos {
            waited_nanos
        } else {
            seen.worst_nanos
        },
    }
}

/// The statistics of a lock that nobody waited for yet.
pub open spec fn no_waits() -> WaitStats {
    WaitStats { count: 0, total_nanos: 0, worst_nanos: 0 }
}

/// The numbers that the server publishes. Gauges and counters wrap around as the
/// atomic integers behind the published ones do.
pub struct Metrics {
    /// Target sessions that are open.
    pub inflight: i64,
    /// Events appended to the outbox.
    pub outbox_backlog: i64,
    /// Runs that the reaper failed.
    pub reaper_timeouts: u64,
    /// One while admission is frozen, zero otherwise.
    pub error_budget_frozen: i64,
    /// Waits by the name of the lock.
    pub lock_waits: Keyed<WaitStats>,
}

/// What a `Metrics` stands for in contracts.
pub struct MetricsView {
    pub inflight: i64,
    pub outbox_backlog: i64,
    pub reaper_timeouts: u64,
    pub error_budget_frozen: i64,
    pub lock_waits: Map<Seq<char>, WaitStats>,
}

impl View for Metrics {
    type V = MetricsView;

    open spec fn view(&self) -> MetricsView {
        MetricsView {
            inflight: self.inflight,
            outbox_backlog: self.outbox_backlog,
            reaper_timeouts: self.reaper_timeouts,
            error_budget_frozen: self.error_budget_frozen,
            lock_waits: self.lock_waits@,
        }
    }
}

impl Metrics {
    /// All numbers at zero.
    pub fn new() -> (metrics: Self)
        ensures
            metrics@ == (MetricsView {
                inflight: 0,
                outbox_backlog: 0,
                reaper_timeouts: 0,
                error_budget_frozen: 0,
                lock_waits: Map::empty(),
            }),
    {
        Metrics {
            inflight: 0,
            outbox_backlog: 0,
            reaper_timeouts: 0,
            error_budget_frozen: 0,
            lock_waits: Keyed::new(),
        }
    }
}

/// Counts one more event appended to the outbox.
pub fn increment_outbox_backlog(metrics: &mut Metrics)
    ensures
        final(metrics)@ == (MetricsView {
            outbox_backlog: old(metrics).outbox_backlog.wrapping_add(1),
            ..old(metrics)@
        }),
{
    metrics.outbox_backlog = metrics.outbox_backlog.wrapping_add(1);
}

/// Counts the runs that one sweep of the reaper failed.
pub fn record_reaper_timeout(metrics: &mut Metrics, count: usize)
    ensures
        final(metrics)@ == (MetricsView {
            reaper_timeouts: if count > 0 {
                old(metrics).reaper_timeouts.wrapping_add(count as u64)
            } else {
                old(metrics).reaper_timeouts
            },
            ..old(metrics)@
        }),
{
    if count > 0 {
        metrics.reaper_timeouts = metrics.reaper_timeouts.wrapping_add(count as u64);
    }
}

/// Publishes whether admission is frozen.
pub fn set_error_budget_frozen(metrics: &mut Metrics, frozen: bool)
    ensures
        final(metrics)@ == (MetricsView {
            error_budget_frozen: if frozen {
                1
            } else {
                0
            },
            ..old(metrics)@
        }),
{
    metrics.error_budget_frozen = if frozen {
        1
    } else {
        0
    };
}

/// Notes that a caller waited `waited_nanos` nanoseconds for the lock `component`.
pub fn observe_lock_wait(metrics: &mut Metrics, component: &str, waited_nanos: u64)
    ensures
        final(metrics)@ == (MetricsView {
            lock_waits: old(metrics)@.lock_waits.insert(
                component@,
                after_wait(
                    if old(metrics)@.lock_waits.contains_key(component@) {
                        old(metrics)@.lock_waits[component@]
                    } else {
                        no_waits()
                    },
                    waited_nanos,
                ),
            ),
            ..old(metrics)@
        }),
{
    let seen = match metrics.lock_waits.get(component) {
        Some(stats) => *stats,
        None => WaitStats { count: 0, total_nanos: 0, worst_nanos: 0 },
    };
    let next = WaitStats {
        count: seen.count.saturating_add(1),
        total_nanos: seen.total_nanos.saturating_add(waited_nanos as u128),
        worst_nanos: if waited_nanos > seen.worst_nanos {
            waited_nanos
        } else {
            seen.worst_nanos
        },
    };
    metrics.lock_waits.insert(component, next);
}

/// Token for one open target session. Making it counts the session in, and
/// releasing it counts the session out.
pub struct PendingGaugeGuard {}

impl PendingGaugeGuard {
    /// Counts one session in.
    pub fn new(metrics: &mut Metrics) -> (guard: Self)
        ensures
            final(metrics)@ == (MetricsView {
                inflight: old(metrics).inflight.wrapping_add(1),
                ..old(metrics)@
            }),
    {
        metrics.inflight = metrics.inflight.wrapping_add(1);
        PendingGaugeGuard {  }
    }

    /// Counts the session out.
    pub fn release(self, metrics: &mut Metrics)
        ensures
            final(metrics)@ == (MetricsView {
                inflight: old(metrics).inflight.wrapping_sub(1),
                ..old(metrics)@
            }),
    {
        metrics.inflight = metrics.inflight.wrapping_sub(1);
    }
}

/// The header carries the bearer token: it starts with `Bearer ` and what follows,
/// white space at its ends aside, is the token.
pub open spec fn authorized(header: Option<Seq<char>>, token: Seq<char>) -> bool {
    header matches Some(value) && "Bearer "@.is_prefix_of(value) && trimmed(
        value.skip("Bearer "@.len() as int),
    ) == token
}

/// Checks the `Authorization` header of a request for the metrics against the
/// token. `header` is the header's value where it is there and is text.
pub fn is_authorized(header: Option<&str>, token: &str) -> (ok: bool)
    ensures
        ok == authorized(
            match header {
                Some(value) => Some(value@),
                None => None,
            },
            token@,
        ),
{
    match header {
        Some(value) => match strip_prefix(value, "Bearer ") {
            Some(rest) => {
                assert(value@.skip("Bearer "@.len() as int) =~= rest@);
                rest.trim().eq(token)
            },
            None => false,
        },
        None => false,
    }
}

/// How the metrics endpoint is served.
#[derive(Debug, Clone, Copy, PartialEq, Eq, Structural)]
pub enum ServePlan {
    /// Not at all: encryption is required and not configured.
    Skip,
    /// With the configured certificate and key.
    Tls,
    /// Unencrypted, by the override for development.
    Plain,
}

/// How the metrics endpoint is served under a configuration.
pub open spec fn serve_plan_of(config: MetricsServerConfigView) -> ServePlan {
    if config.tls.is_some() {
        ServePlan::Tls
    } else if config.allow_insecure {
        ServePlan::Plain
    } else {
        ServePlan::Skip
    }
}

/// Decides how the metrics endpoint is served.
pub fn serve_plan(config: &MetricsServerConfig) -> (plan: ServePlan)
    ensures
        plan == serve_plan_of(config@),
{
    if config.tls.is_some() {
        ServePlan::Tls
    } else if config.allow_insecure {
        ServePlan::Plain
    } else {
        ServePlan::Skip
    }
}

/// What the server warns about when it starts the metrics endpoint.
#[derive(Debug, Clone, Copy, PartialEq, Eq, Structural)]
pub enum StartupWarning {
    /// The endpoint runs without encryption.
    Unencrypted,
    /// No token protects the endpoint.
    NoAuthToken,
}

/// The warning for a configuration of the metrics endpoint, if it calls for one.
pub open spec fn startup_warning_of(config: MetricsServerConfigView) -> Option<StartupWarning> {
    if config.allow_insecure && config.tls.is_none() {
        Some(StartupWarning::Unencrypted)
    } else if config.auth_token.is_none() {
        Some(StartupWarning::NoAuthToken)
    } else {
        None
    }
}

/// Decides what to warn about when the metrics endpoint starts.
pub fn startup_warning(config: &MetricsServerConfig) -> (warning: Option<StartupWarning>)
    ensures
        warning == startup_warning_of(config@),
{
    if config.allow_insecure && config.tls.is_none() {
        Some(StartupWarning::Unencrypted)
    } else if config.auth_token.is_none() {
        Some(StartupWarning::NoAuthToken)
    } else {
        None
    }
}

} // verus!
