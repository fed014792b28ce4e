use anubot::gateway::{
    after_failure, group_verification_text, html_escape, is_transient, mention, retry_start,
    to_user_id, RetryState, TgErrorKind, TG_MAX_ATTEMPTS,
};

#[test]
fn transient_failures() {
    assert!(is_transient(TgErrorKind::RetryAfter));
    assert!(is_transient(TgErrorKind::Network));
    assert!(is_transient(TgErrorKind::Io));
    assert!(!is_transient(TgErrorKind::Other));
}

#[test]
fn retries_back_off_and_stop() {
    let s1 = retry_start();
    assert_eq!(s1, RetryState { attempt: 1, delay_ms: 200 });
    let s2 = after_failure(s1, TgErrorKind::Network).unwrap();
    assert_eq!(s2, RetryState { attempt: 2, delay_ms: 400 });
    let s3 = after_failure(s2, TgErrorKind::Io).unwrap();
    assert_eq!(s3, RetryState { attempt: 3, delay_ms: 800 });
    assert_eq!(s3.attempt, TG_MAX_ATTEMPTS);
    assert_eq!(after_failure(s3, TgErrorKind::RetryAfter), None);
    assert_eq!(after_failure(s1, TgErrorKind::Other), None);
    assert_eq!(
        after_failure(RetryState { attempt: 1, delay_ms: u64::MAX - 1 }, TgErrorKind::Io),
        Some(RetryState { attempt: 2, delay_ms: u64::MAX })
    );
}

#[test]
fn user_ids() {
    assert_eq!(to_user_id(42), 42);
    assert_eq!(to_user_id(0), 0);
    assert_eq!(to_user_id(-7), 0);
}

#[test]
fn escaping() {
    assert_eq!(html_escape("<b>&\"'x"), "&lt;b&gt;&amp;&quot;&#39;x");
    assert_eq!(html_escape("安娜"), "安娜");
    assert_eq!(html_escape(""), "");
}

#[test]
fn mentions() {
    assert_eq!(mention(5, "A<B>"), "<a href=\"tg://user?id=5\">A&lt;B&gt;</a>");
    assert_eq!(
        group_verification_text("hi {user} in {chat}", 9, "Bo"),
        "hi <a href=\"tg://user?id=9\">Bo</a> in {chat}"
    );
}
