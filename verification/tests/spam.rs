use anubot::group::AiConfig;
use anubot::spam::{
    after_count, after_delete, after_score, counted_spam, message_text, screening_is_due,
    spam_check_text,
    SpamAction, SpamStep,
};

#[test]
fn scored_text_prefers_text_then_caption() {
    assert_eq!(message_text(Some("  hi  "), Some("cap")), Some("hi".to_string()));
    assert_eq!(message_text(None, Some(" cap ")), Some("cap".to_string()));
    assert_eq!(message_text(Some("   "), Some("cap")), None);
    assert_eq!(message_text(None, None), None);
}

#[test]
fn screening_window() {
    let cfg = AiConfig::empty();
    // fewer messages than the limit: screened whatever the time
    assert!(screening_is_due(2, Some(0), 0, &cfg, 1_000_000));
    // limit reached, but still within 24 hours of verification
    assert!(screening_is_due(3, Some(1_000), 0, &cfg, 1_000 + 86_400));
    assert!(!screening_is_due(3, Some(1_000), 0, &cfg, 1_000 + 86_401));
    // without a verification time the creation time counts
    assert!(screening_is_due(5, None, 500, &cfg, 500 + 3_600));
    assert!(!screening_is_due(5, None, 500, &cfg, 500 + 86_401));
    // the elapsed time saturates instead of overflowing
    assert!(!screening_is_due(5, Some(i64::MIN), 0, &cfg, i64::MAX));
    assert!(screening_is_due(5, Some(i64::MAX), 0, &cfg, i64::MIN));

    let mut cfg = AiConfig::empty();
    cfg.spam_check_message_limit = Some(10);
    cfg.spam_check_window_hours = Some(1);
    assert!(screening_is_due(9, Some(0), 0, &cfg, 1_000_000));
    assert!(!screening_is_due(10, Some(0), 0, &cfg, 3_601));
    assert!(screening_is_due(10, Some(0), 0, &cfg, 3_600));
}

#[test]
fn score_steps() {
    assert_eq!(after_score(79, 80), SpamStep::Allow);
    assert_eq!(after_score(80, 80), SpamStep::Delete);
    assert_eq!(after_delete(95, 95), SpamStep::Kick);
    assert_eq!(after_delete(94, 95), SpamStep::CountSpam);
    assert_eq!(counted_spam(Some(2)), 2);
    assert_eq!(counted_spam(None), 0);
    assert_eq!(after_count(2, 2), SpamStep::Kick);
    assert_eq!(after_count(1, 2), SpamStep::Allow);
}

#[test]
fn action_names() {
    assert_eq!(SpamAction::Deleted.as_str(), "deleted");
    assert_eq!(SpamAction::Kicked.as_str(), "kicked");
}

#[test]
fn which_messages_are_checked() {
    assert_eq!(spam_check_text(true, true, Some(" buy "), None), Some("buy".to_string()));
    assert_eq!(spam_check_text(true, true, None, Some("cap")), Some("cap".to_string()));
    assert_eq!(spam_check_text(true, true, Some("  "), None), None);
    assert_eq!(spam_check_text(false, true, Some("buy"), None), None);
    assert_eq!(spam_check_text(true, false, Some("buy"), None), None);
}
