use anubot::commands::Command;
use anubot::group::AiField;
use anubot::routes::{is_member_join, route_message, MessageRoute};
use anubot::settings::SettingsTarget;
use anubot::verify::StartPayload;

#[test]
fn commands_come_first() {
    assert_eq!(
        route_message(Some(Command::Status), true, Some("[set:1:url]"), Some("/start 5")),
        MessageRoute::Command(Command::Status)
    );
}

#[test]
fn private_messages() {
    assert_eq!(
        route_message(None, true, Some("prompt\n\n[set:-7:model]"), Some("gpt")),
        MessageRoute::SettingsReply(SettingsTarget { chat_id: -7, field: AiField::Model })
    );
    assert_eq!(
        route_message(None, true, Some("no marker"), Some("/start settings_-7")),
        MessageRoute::Start(StartPayload::Settings(-7))
    );
    assert_eq!(route_message(None, true, None, Some("/start 9")), MessageRoute::Start(StartPayload::Verify(9)));
    assert_eq!(route_message(None, true, None, Some("hello")), MessageRoute::Ignore);
    assert_eq!(route_message(None, true, None, None), MessageRoute::Ignore);
}

#[test]
fn group_messages_are_screened() {
    assert_eq!(route_message(None, false, None, Some("/start 9")), MessageRoute::GroupMessage);
    assert_eq!(route_message(None, false, None, None), MessageRoute::GroupMessage);
}

#[test]
fn joins() {
    assert!(is_member_join(false, true));
    assert!(!is_member_join(true, true));
    assert!(!is_member_join(false, false));
    assert!(!is_member_join(true, false));
}
