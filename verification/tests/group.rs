use anubot::group::{
    AiConfig, AiField, DEFAULT_SPAM_CHECK_MESSAGE_LIMIT, DEFAULT_SPAM_CHECK_WINDOW_HOURS,
    DEFAULT_SPAM_KICK_THRESHOLD,
};

const FIELDS: [AiField; 7] = [
    AiField::Provider,
    AiField::ApiBase,
    AiField::ApiKey,
    AiField::Model,
    AiField::SpamMessageLimit,
    AiField::SpamWindowHours,
    AiField::SpamKickThreshold,
];

#[test]
fn field_tags_round_trip() {
    for f in FIELDS {
        assert_eq!(AiField::parse(f.tag()), Some(f));
    }
    assert_eq!(AiField::ApiBase.tag(), "url");
    assert_eq!(AiField::SpamWindowHours.tag(), "window");
}

#[test]
fn long_field_names_parse() {
    assert_eq!(AiField::parse("api_base"), Some(AiField::ApiBase));
    assert_eq!(AiField::parse("api_key"), Some(AiField::ApiKey));
    assert_eq!(AiField::parse("spam_message_limit"), Some(AiField::SpamMessageLimit));
    assert_eq!(AiField::parse("spam_window_hours"), Some(AiField::SpamWindowHours));
    assert_eq!(AiField::parse("spam_kick_threshold"), Some(AiField::SpamKickThreshold));
    assert_eq!(AiField::parse("Provider"), None);
    assert_eq!(AiField::parse(""), None);
}

#[test]
fn defaults_apply_when_unset() {
    let c = AiConfig::empty();
    assert_eq!(c.spam_check_message_limit(), DEFAULT_SPAM_CHECK_MESSAGE_LIMIT);
    assert_eq!(c.spam_check_window_hours(), DEFAULT_SPAM_CHECK_WINDOW_HOURS);
    assert_eq!(c.spam_kick_threshold(), DEFAULT_SPAM_KICK_THRESHOLD);
    assert_eq!((3, 24, 2), (
        DEFAULT_SPAM_CHECK_MESSAGE_LIMIT,
        DEFAULT_SPAM_CHECK_WINDOW_HOURS,
        DEFAULT_SPAM_KICK_THRESHOLD
    ));
    assert_eq!(c.ready(), None);
}

#[test]
fn ready_needs_all_four() {
    let c = AiConfig::empty()
        .with_field(AiField::Provider, Some("openai"))
        .with_field(AiField::ApiBase, Some("https://x"))
        .with_field(AiField::ApiKey, Some("k"));
    assert_eq!(c.ready(), None);
    let c = c.with_field(AiField::Model, Some("m"));
    assert_eq!(c.ready(), Some(("openai", "https://x", "k", "m")));
    let c = c.with_field(AiField::ApiKey, None);
    assert_eq!(c.ready(), None);
}

#[test]
fn setting_a_field_leaves_the_rest() {
    let c = AiConfig::empty()
        .with_field(AiField::Model, Some("m"))
        .with_field(AiField::SpamMessageLimit, Some("9"))
        .with_field(AiField::SpamWindowHours, Some("nope"))
        .with_field(AiField::SpamKickThreshold, Some("5"));
    assert_eq!(c.model.as_deref(), Some("m"));
    assert_eq!(c.spam_check_message_limit, Some(9));
    assert_eq!(c.spam_check_window_hours, None);
    assert_eq!(c.spam_check_window_hours(), 24);
    assert_eq!(c.spam_kick_threshold(), 5);
    assert_eq!(c.provider, None);
    let d = c.clone().with_field(AiField::SpamMessageLimit, None);
    assert_eq!(d.spam_check_message_limit, None);
    assert_eq!(d.model.as_deref(), Some("m"));
    assert_eq!(d.spam_kick_threshold, Some(5));
}
