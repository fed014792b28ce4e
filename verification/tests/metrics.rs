use std::sync::atomic::Ordering;

use anubot::metrics::{render_snapshot, Metrics, MetricsSnapshot};

#[test]
fn renders_prometheus_format() {
    let m = Metrics::new();
    m.verifications_started.fetch_add(3, Ordering::Relaxed);
    m.spam_decisions_deleted.fetch_add(2, Ordering::Relaxed);
    let out = m.render_prometheus();
    assert!(out.contains("anubot_verifications_started_total 3"));
    assert!(out.contains("anubot_spam_decisions_total{action=\"deleted\"} 2"));
    assert!(out.contains("anubot_spam_decisions_total{action=\"kicked\"} 0"));
    assert!(out.contains("# TYPE anubot_verifications_started_total counter"));
}

#[test]
fn snapshot_renders_every_counter_in_order() {
    let s = MetricsSnapshot {
        verifications_started: 1,
        verifications_succeeded: 20,
        verifications_expired: 300,
        spam_decisions_deleted: 4000,
        spam_decisions_kicked: 5,
        ai_calls_ok: 18446744073709551615,
        ai_calls_error: 0,
    };
    let out = render_snapshot(s);
    let samples: Vec<&str> = out.lines().filter(|l| !l.starts_with('#')).collect();
    assert_eq!(
        samples,
        vec![
            "anubot_verifications_started_total 1",
            "anubot_verifications_succeeded_total 20",
            "anubot_verifications_expired_total 300",
            "anubot_spam_decisions_total{action=\"deleted\"} 4000",
            "anubot_spam_decisions_total{action=\"kicked\"} 5",
            "anubot_ai_calls_total{outcome=\"ok\"} 18446744073709551615",
            "anubot_ai_calls_total{outcome=\"error\"} 0",
        ]
    );
    assert!(out.ends_with('\n'));
}
