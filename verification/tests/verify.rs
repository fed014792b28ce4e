use anubot::group::Group;
use anubot::session::{NewSession, Session, SessionStatus};
use anubot::verify::{
    dm_verification_text, expiry_actions, expiry_batch_continues, generate_verify_token,
    group_wants_verification, hex_encode, join_next, join_request_next, join_request_start,
    join_start, parse_start_payload, session_deadline, settings_deep_link, verification_message,
    verify_deep_link, verify_page_url, verify_start_step, whole_minutes, ExpiryAction, JoinRequestStage,
    JoinStage, StartPayload, VerifyStartStep,
};

fn group(chat_id: i64, enabled: bool, timeout_seconds: i64) -> Group {
    Group {
        chat_id,
        enabled,
        timeout_seconds,
        welcome_text: None,
        button_label: None,
        created_at: 0,
        updated_at: 0,
        ai_config: None,
    }
}

fn pending(verify_msg_id: Option<i64>, token: &str) -> Session {
    Session::create(
        NewSession {
            chat_id: -100,
            user_id: 7,
            chat_title: "Chat",
            user_first_name: "Ann",
            verify_msg_id,
            verify_token: token,
            expires_at: 1_000,
        },
        400,
    )
}

#[test]
fn start_payloads() {
    assert_eq!(parse_start_payload("/start -1001234"), Some(StartPayload::Verify(-1001234)));
    assert_eq!(
        parse_start_payload("  /start   settings_-42  "),
        Some(StartPayload::Settings(-42))
    );
    assert_eq!(parse_start_payload("/start@anubot 5"), Some(StartPayload::Verify(5)));
    assert_eq!(parse_start_payload("/start\t9"), Some(StartPayload::Verify(9)));
}

#[test]
fn start_payloads_rejected() {
    assert_eq!(parse_start_payload("/start"), None);
    assert_eq!(parse_start_payload("/start abc"), None);
    assert_eq!(parse_start_payload("/start settings_"), None);
    assert_eq!(parse_start_payload("/stop 5"), None);
    assert_eq!(parse_start_payload("/start 99999999999999999999"), None);
    assert_eq!(parse_start_payload(""), None);
}

#[test]
fn deep_links_carry_the_payload_back() {
    let link = verify_deep_link("anubot", -1001234567890);
    assert_eq!(link, "https://t.me/anubot?start=-1001234567890");
    let payload = link.split_once("?start=").unwrap().1;
    assert_eq!(
        parse_start_payload(&format!("/start {payload}")),
        Some(StartPayload::Verify(-1001234567890))
    );
    let link = settings_deep_link("anubot", 77);
    assert_eq!(link, "https://t.me/anubot?start=settings_77");
    let payload = link.split_once("?start=").unwrap().1;
    assert_eq!(
        parse_start_payload(&format!("/start {payload}")),
        Some(StartPayload::Settings(77))
    );
}

#[test]
fn join_flow_happy_path() {
    assert_eq!(join_start(5, 5), JoinStage::Done);
    let mut s = join_start(6, 5);
    assert_eq!(s, JoinStage::LoadGroup);
    let outcomes = [true, false, true, true];
    let mut seen = vec![s];
    for ok in outcomes {
        s = join_next(s, ok);
        seen.push(s);
    }
    assert_eq!(
        seen,
        vec![
            JoinStage::LoadGroup,
            JoinStage::CheckActive,
            JoinStage::Restrict,
            JoinStage::Send,
            JoinStage::Create,
        ]
    );
    assert_eq!(join_next(JoinStage::Create, true), JoinStage::Done);
}

#[test]
fn join_flow_failures() {
    assert_eq!(join_next(JoinStage::LoadGroup, false), JoinStage::Done);
    assert_eq!(join_next(JoinStage::CheckActive, true), JoinStage::Done);
    assert_eq!(join_next(JoinStage::Restrict, false), JoinStage::Done);
    assert_eq!(join_next(JoinStage::Send, false), JoinStage::Kick);
    assert_eq!(join_next(JoinStage::Kick, true), JoinStage::Done);
    assert_eq!(join_next(JoinStage::Kick, false), JoinStage::Unrestrict);
    assert_eq!(join_next(JoinStage::Unrestrict, false), JoinStage::Done);
}

#[test]
fn join_request_flow() {
    assert_eq!(join_request_start(1, 1), JoinRequestStage::Done);
    assert_eq!(join_request_start(2, 1), JoinRequestStage::LoadGroup);
    assert_eq!(join_request_next(JoinRequestStage::LoadGroup, true), JoinRequestStage::Restrict);
    assert_eq!(join_request_next(JoinRequestStage::LoadGroup, false), JoinRequestStage::Done);
    assert_eq!(join_request_next(JoinRequestStage::Restrict, true), JoinRequestStage::Approve);
    assert_eq!(join_request_next(JoinRequestStage::Restrict, false), JoinRequestStage::Done);
    assert_eq!(join_request_next(JoinRequestStage::Approve, true), JoinRequestStage::Done);
}

#[test]
fn only_enabled_groups_verify() {
    assert!(!group_wants_verification(None));
    assert!(!group_wants_verification(Some(&group(1, false, 600))));
    assert!(group_wants_verification(Some(&group(1, true, 600))));
}

#[test]
fn verification_message_defaults() {
    let m = verification_message(&group(-5, true, 600), "Rust 中文", "anubot");
    assert_eq!(
        m.text,
        "欢迎 {user}！加入 Rust 中文 需要完成人机验证,请点击下方按钮前往与机器人的私聊,\
         在 10 分钟内完成验证,超时将被移出群组。"
    );
    assert_eq!(m.button_label, "前往私聊验证");
    assert_eq!(m.verify_url, "https://t.me/anubot?start=-5");
}

#[test]
fn verification_message_custom() {
    let mut g = group(3, true, 119);
    g.welcome_text = Some("{chat}/{timeout}/{user}".to_string());
    g.button_label = Some("Go".to_string());
    let m = verification_message(&g, "T", "bot");
    assert_eq!(m.text, "T/1/{user}");
    assert_eq!(m.button_label, "Go");
}

#[test]
fn minutes_round_toward_zero() {
    assert_eq!(whole_minutes(600), 10);
    assert_eq!(whole_minutes(59), 0);
    assert_eq!(whole_minutes(-61), -1);
    assert_eq!(whole_minutes(i64::MIN), i64::MIN / 60);
    assert_eq!(session_deadline(1_000, 600), 1_600);
}

#[test]
fn verify_start_steps() {
    assert_eq!(verify_start_step(None), VerifyStartStep::NoPending);
    let s = pending(None, "abc");
    assert_eq!(
        verify_start_step(Some(&s)),
        VerifyStartStep::SendLink { token: "abc".to_string() }
    );
    let mut s = pending(None, "abc");
    s.verify_token = None;
    assert_eq!(verify_start_step(Some(&s)), VerifyStartStep::PersistToken);
}

#[test]
fn page_url_drops_trailing_slashes() {
    assert_eq!(
        verify_page_url("https://bot.example.org//", -100, 7, "0a1b"),
        "https://bot.example.org/app/-100/7/0a1b"
    );
    assert_eq!(verify_page_url("", 1, 2, "t"), "/app/1/2/t");
}

#[test]
fn dm_text() {
    assert_eq!(
        dm_verification_text("Ann", "Chat"),
        "你好 Ann,请点击下方按钮完成在《Chat》的人机验证。"
    );
}

#[test]
fn expiry_actions_for_expired_sessions() {
    let s = pending(Some(55), "t");
    assert_eq!(
        expiry_actions(&s, true),
        vec![
            ExpiryAction::Kick { chat_id: -100, user_id: 7 },
            ExpiryAction::DeleteMessage { chat_id: -100, message_id: 55 },
        ]
    );
    assert_eq!(expiry_actions(&s, false), vec![]);
    let s = pending(None, "t");
    assert_eq!(expiry_actions(&s, true), vec![ExpiryAction::Kick { chat_id: -100, user_id: 7 }]);
    assert!(expiry_batch_continues(100));
    assert!(!expiry_batch_continues(99));
}

#[test]
fn tokens_are_hex() {
    assert_eq!(hex_encode(&[0x00, 0x0f, 0xa0, 0xff]), "000fa0ff");
    assert_eq!(hex_encode(&[]), "");
    let t = generate_verify_token().expect("the system random source works");
    assert_eq!(t.len(), 16);
    assert!(t.chars().all(|c| c.is_ascii_digit() || ('a'..='f').contains(&c)));
    let u = generate_verify_token().expect("the system random source works");
    assert_ne!(t, u);
    let s = pending(None, &t);
    assert_eq!(s.status, SessionStatus::Pending);
}
