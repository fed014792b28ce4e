use anubot::session::{NewSession, Session, SessionStatus};

fn new_session(token: &str) -> Session {
    Session::create(
        NewSession {
            chat_id: -100,
            user_id: 7,
            chat_title: "Chat",
            user_first_name: "Ann",
            verify_msg_id: Some(3),
            verify_token: token,
            expires_at: 1_000,
        },
        400,
    )
}

#[test]
fn created_sessions_are_pending() {
    let s = new_session("tok");
    assert_eq!(s.status, SessionStatus::Pending);
    assert_eq!(s.verify_token.as_deref(), Some("tok"));
    assert_eq!(s.created_at, 400);
    assert_eq!(s.expires_at, 1_000);
    assert_eq!(s.verified_at, None);
    assert_eq!((s.message_counts, s.spam_counts), (0, 0));
    assert!(s.is_active(999));
    assert!(!s.is_active(1_000));
    assert!(!s.is_due(999));
    assert!(s.is_due(1_000));
}

#[test]
fn verification_needs_token_and_time() {
    let mut s = new_session("tok");
    assert!(!s.mark_verified_if_pending_unexpired("bad", 500));
    assert_eq!(s.status, SessionStatus::Pending);
    assert!(!s.mark_verified_if_pending_unexpired("tok", 1_000));
    assert_eq!(s.status, SessionStatus::Pending);
    assert!(s.mark_verified_if_pending_unexpired("tok", 999));
    assert_eq!(s.status, SessionStatus::Verified);
    assert_eq!(s.verified_at, Some(999));
    assert!(!s.mark_verified_if_pending_unexpired("tok", 999));
    assert_eq!(s.verified_at, Some(999));
}

#[test]
fn expiry_only_when_due_and_final() {
    let mut s = new_session("tok");
    assert!(!s.mark_expired_if_pending_due(999));
    assert!(s.mark_expired_if_pending_due(1_000));
    assert_eq!(s.status, SessionStatus::Expired);
    assert!(!s.mark_verified_if_pending_unexpired("tok", 10));
    assert!(!s.mark_expired_if_pending_due(2_000));
    assert_eq!(s.status, SessionStatus::Expired);

    let mut v = new_session("tok");
    assert!(v.mark_verified_if_pending_unexpired("tok", 500));
    assert!(!v.mark_expired_if_pending_due(5_000));
    assert_eq!(v.status, SessionStatus::Verified);
}

#[test]
fn token_is_set_only_while_pending() {
    let mut s = new_session("a");
    assert!(s.set_verify_token("b"));
    assert_eq!(s.verify_token.as_deref(), Some("b"));
    assert!(s.mark_verified_if_pending_unexpired("b", 1));
    assert!(!s.set_verify_token("c"));
    assert_eq!(s.verify_token.as_deref(), Some("b"));
}

#[test]
fn counters_move_only_when_verified() {
    let mut s = new_session("t");
    assert!(!s.increment_message_count_if_verified());
    assert_eq!(s.increment_spam_count_if_verified(), None);
    assert_eq!(s.decrement_spam_count_if_verified(), None);
    assert_eq!((s.message_counts, s.spam_counts), (0, 0));

    assert!(s.mark_verified_if_pending_unexpired("t", 1));
    assert!(s.increment_message_count_if_verified());
    assert_eq!(s.message_counts, 1);
    assert_eq!(s.increment_spam_count_if_verified(), Some(1));
    assert_eq!(s.increment_spam_count_if_verified(), Some(2));
    assert_eq!(s.decrement_spam_count_if_verified(), Some(1));
    assert_eq!(s.decrement_spam_count_if_verified(), Some(0));
    assert_eq!(s.decrement_spam_count_if_verified(), Some(0));
    assert_eq!(s.spam_counts, 0);
}

#[test]
fn spam_count_round_trip() {
    let mut s = new_session("t");
    assert!(s.mark_verified_if_pending_unexpired("t", 1));
    s.spam_counts = 4;
    let before = s.clone();
    assert_eq!(s.increment_spam_count_if_verified(), Some(5));
    assert_eq!(s.decrement_spam_count_if_verified(), Some(4));
    assert_eq!(s, before);
}
