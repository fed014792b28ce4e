//! Operational counters and their Prometheus text exposition.
use std::sync::atomic::AtomicU64;

use vstd::prelude::*;

use crate::chars::{nat_decimal, push_nat_decimal, push_str};

verus! {

/// Monotonic operational counters. They are gauges for operators, not a means of
/// synchronization: every access is relaxed.
pub struct Metrics {
    pub verifications_started: AtomicU64,
    pub verifications_succeeded: AtomicU64,
    pub verifications_expired: AtomicU64,
    pub spam_decisions_deleted: AtomicU64,
    pub spam_decisions_kicked: AtomicU64,
    pub ai_calls_ok: AtomicU64,
    pub ai_calls_error: AtomicU64,
}

/// The values of the counters at one moment.
#[derive(Debug, Clone, Copy, PartialEq, Eq)]
pub struct MetricsSnapshot {
    pub verifications_started: u64,
    pub verifications_succeeded: u64,
    pub verifications_expired: u64,
    pub spam_decisions_deleted: u64,
    pub spam_decisions_kicked: u64,
    pub ai_calls_ok: u64,
    pub ai_calls_error: u64,
}

/// The Prometheus exposition of a snapshot: a `# HELP` and `# TYPE` header per metric
/// family and one sample line per counter, each line ending in a newline.
pub open spec fn prometheus_text(m: MetricsSnapshot) -> Seq<char> {
    "# HELP anubot_verifications_started_total Verification flows started\n"@
        + "# TYPE anubot_verifications_started_total counter\n"@
        + "anubot_verifications_started_total "@ + nat_decimal(m.verifications_started as nat)
        + "\n"@
        + "# HELP anubot_verifications_succeeded_total Verification flows completed by user\n"@
        + "# TYPE anubot_verifications_succeeded_total counter\n"@
        + "anubot_verifications_succeeded_total "@ + nat_decimal(m.verifications_succeeded as nat)
        + "\n"@
        + "# HELP anubot_verifications_expired_total Verification sessions kicked after timeout\n"@
        + "# TYPE anubot_verifications_expired_total counter\n"@
        + "anubot_verifications_expired_total "@ + nat_decimal(m.verifications_expired as nat)
        + "\n"@
        + "# HELP anubot_spam_decisions_total Spam decisions taken by action\n"@
        + "# TYPE anubot_spam_decisions_total counter\n"@
        + "anubot_spam_decisions_total{action=\"deleted\"} "@ + nat_decimal(
        m.spam_decisions_deleted as nat,
    ) + "\n"@ + "anubot_spam_decisions_total{action=\"kicked\"} "@ + nat_decimal(
        m.spam_decisions_kicked as nat,
    ) + "\n"@ + "# HELP anubot_ai_calls_total Outcome of AI spam-check calls\n"@
        + "# TYPE anubot_ai_calls_total counter\n"@ + "anubot_ai_calls_total{outcome=\"ok\"} "@
        + nat_decimal(m.ai_calls_ok as nat) + "\n"@
        + "anubot_ai_calls_total{outcome=\"error\"} "@ + nat_decimal(m.ai_calls_error as nat)
        + "\n"@
}

/// Renders a snapshot in the Prometheus text exposition format.
pub fn render_snapshot(m: MetricsSnapshot) -> (out: String)
    ensures
        out@ == prometheus_text(m),
{
    let mut out = String::new();
    push_str(&mut out, "# HELP anubot_verifications_started_total Verification flows started\n");
    push_str(&mut out, "# TYPE anubot_verifications_started_total counter\n");
    push_str(&mut out, "anubot_verifications_started_total ");
    push_nat_decimal(&mut out, m.verifications_started);
    push_str(&mut out, "\n");
    push_str(
        &mut out,
        "# HELP anubot_verifications_succeeded_total Verification flows completed by user\n",
    );
    push_str(&mut out, "# TYPE anubot_verifications_succeeded_total counter\n");
    push_str(&mut out, "anubot_verifications_succeeded_total ");
    push_nat_decimal(&mut out, m.verifications_succeeded);
    push_str(&mut out, "\n");
    push_str(
        &mut out,
        "# HELP anubot_verifications_expired_total Verification sessions kicked after timeout\n",
    );
    push_str(&mut out, "# TYPE anubot_verifications_expired_total counter\n");
    push_str(&mut out, "anubot_verifications_expired_total ");
    push_nat_decimal(&mut out, m.verifications_expired);
    push_str(&mut out, "\n");
    push_str(&mut out, "# HELP anubot_spam_decisions_total Spam decisions taken by action\n");
    push_str(&mut out, "# TYPE anubot_spam_decisions_total counter\n");
    push_str(&mut out, "anubot_spam_decisions_total{action=\"deleted\"} ");
    push_nat_decimal(&mut out, m.spam_decisions_deleted);
    push_str(&mut out, "\n");
    push_str(&mut out, "anubot_spam_decisions_total{action=\"kicked\"} ");
    push_nat_decimal(&mut out, m.spam_decisions_kicked);
    push_str(&mut out, "\n");
    push_str(&mut out, "# HELP anubot_ai_calls_total Outcome of AI spam-check calls\n");
    push_str(&mut out, "# TYPE anubot_ai_calls_total counter\n");
    push_str(&mut out, "anubot_ai_calls_total{outcome=\"ok\"} ");
    push_nat_decimal(&mut out, m.ai_calls_ok);
    push_str(&mut out, "\n");
    push_str(&mut out, "anubot_ai_calls_total{outcome=\"error\"} ");
    push_nat_decimal(&mut out, m.ai_calls_error);
    push_str(&mut out, "\n");
    out
}

impl Metrics {
    /// All counters at zero.
    pub fn new() -> (m: Self) {
        Metrics {
            verifications_started: AtomicU64::new(0),
            verifications_succeeded: AtomicU64::new(0),
            verifications_expired: AtomicU64::new(0),
            spam_decisions_deleted: AtomicU64::new(0),
            spam_decisions_kicked: AtomicU64::new(0),
            ai_calls_ok: AtomicU64::new(0),
            ai_calls_error: AtomicU64::new(0),
        }
    }

    /// Reads every counter, each with a relaxed load.
    pub fn snapshot(&self) -> (s: MetricsSnapshot) {
        MetricsSnapshot {
            verifications_started: self.verifications_started.load(
                std::sync::atomic::Ordering::Relaxed,
            ),
            verifications_succeeded: self.verifications_succeeded.load(
                std::sync::atomic::Ordering::Relaxed,
            ),
            verifications_expired: self.verifications_expired.load(
                std::sync::atomic::Ordering::Relaxed,
            ),
            spam_decisions_deleted: self.spam_decisions_deleted.load(
                std::sync::atomic::Ordering::Relaxed,
            ),
            spam_decisions_kicked: self.spam_decisions_kicked.load(
                std::sync::atomic::Ordering::Relaxed,
            ),
            ai_calls_ok: self.ai_calls_ok.load(std::sync::atomic::Ordering::Relaxed),
            ai_calls_error: self.ai_calls_error.load(std::sync::atomic::Ordering::Relaxed),
        }
    }

    /// The Prometheus exposition of the counters as they read at the moment of the call.
    pub fn render_prometheus(&self) -> (out: String)
        ensures
            exists|s: MetricsSnapshot| out@ == prometheus_text(s),
    {
        let s = self.snapshot();
        render_snapshot(s)
    }
}

} // verus!
