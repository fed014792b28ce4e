use anubot::commands::{
    addressed_command, command_start, command_with_group, parse_admin_command, render_reply,
    settings_command_reply, status_reply, Command, CommandReply, CommandStep, GroupWrite,
};
use anubot::group::Group;
use anubot::text::{SETTINGS_COMMAND_PROMPT, SETTINGS_GROUP_NOT_REGISTERED};

fn group(enabled: bool, timeout_seconds: i64) -> Group {
    Group {
        chat_id: -1,
        enabled,
        timeout_seconds,
        welcome_text: None,
        button_label: None,
        created_at: 0,
        updated_at: 0,
        ai_config: None,
    }
}

#[test]
fn admin_commands_parse() {
    assert_eq!(parse_admin_command("/enable", ""), Some(Command::Enable));
    assert_eq!(parse_admin_command("/disable", ""), Some(Command::Disable));
    assert_eq!(parse_admin_command("/set_timeout", "120"), Some(Command::SetTimeout(120)));
    assert_eq!(parse_admin_command("/set_timeout", "-5"), Some(Command::SetTimeout(-5)));
    assert_eq!(parse_admin_command("/set_timeout", "+7"), Some(Command::SetTimeout(7)));
    assert_eq!(
        parse_admin_command("/set_welcome", "hi {user}"),
        Some(Command::SetWelcome(Some("hi {user}".to_string())))
    );
    assert_eq!(parse_admin_command("/set_welcome", ""), Some(Command::SetWelcome(None)));
    assert_eq!(parse_admin_command("/set_button", ""), Some(Command::SetButton(None)));
    assert_eq!(parse_admin_command("/status", ""), Some(Command::Status));
    assert_eq!(parse_admin_command("/settings", ""), Some(Command::Settings));
}

#[test]
fn admin_commands_rejected() {
    assert_eq!(parse_admin_command("/enable", "now"), None);
    assert_eq!(parse_admin_command("/set_timeout", ""), None);
    assert_eq!(parse_admin_command("/set_timeout", "ten"), None);
    assert_eq!(parse_admin_command("/set_timeout", "99999999999999999999"), None);
    assert_eq!(parse_admin_command("/ban", ""), None);
    assert_eq!(parse_admin_command("enable", ""), None);
}

#[test]
fn commands_must_name_this_bot() {
    assert_eq!(addressed_command("/enable@AnuBot", "", "anubot"), Some(Command::Enable));
    assert_eq!(
        addressed_command("/set_timeout@anubot", "  300 ", "anubot"),
        Some(Command::SetTimeout(300))
    );
    assert_eq!(addressed_command("/enable@otherbot", "", "anubot"), None);
    assert_eq!(addressed_command("/enable", "", "anubot"), None);
    assert_eq!(addressed_command("/status@anubot", "x", "anubot"), None);
}

#[test]
fn replies_render() {
    assert_eq!(render_reply(CommandReply::Success, "b"), "操作成功。");
    assert_eq!(
        render_reply(CommandReply::NotRegistered, "anubot"),
        "本群尚未启用验证,请先执行 /enable@anubot。"
    );
    assert_eq!(
        render_reply(CommandReply::InvalidTimeout, "b"),
        "超时时长无效,允许范围 60-3600 秒。"
    );
    assert_eq!(
        render_reply(
            CommandReply::Status {
                enabled: true,
                timeout_seconds: 600,
                verified_24h: 3,
                declined_24h: -1,
            },
            "b"
        ),
        "验证状态:已启用\n超时设置:600 秒\n过去 24 小时已验证:3\n过去 24 小时已拒绝:-1"
    );
    assert!(render_reply(
        CommandReply::Status {
            enabled: false,
            timeout_seconds: 60,
            verified_24h: 0,
            declined_24h: 0,
        },
        "b"
    )
    .starts_with("验证状态:已停用\n"));
    assert!(render_reply(CommandReply::NotSupergroup, "b").contains("supergroup"));
}

#[test]
fn first_step_of_a_command() {
    assert_eq!(command_start(&Command::Settings, false), CommandStep::OpenSettings);
    assert_eq!(
        command_start(&Command::Enable, true),
        CommandStep::Write(GroupWrite::UpsertEnabled, CommandReply::Success)
    );
    assert_eq!(
        command_start(&Command::Enable, false),
        CommandStep::Reply(CommandReply::NotSupergroup)
    );
    assert_eq!(command_start(&Command::Status, false), CommandStep::LoadGroup);
    assert_eq!(command_start(&Command::SetTimeout(5), true), CommandStep::LoadGroup);
}

#[test]
fn commands_on_a_known_group() {
    let g = group(true, 600);
    assert_eq!(
        command_with_group(Command::Disable, None, 1_000_000),
        CommandStep::Reply(CommandReply::NotRegistered)
    );
    assert_eq!(
        command_with_group(Command::Disable, Some(&g), 0),
        CommandStep::Write(GroupWrite::SetEnabled(false), CommandReply::Success)
    );
    assert_eq!(
        command_with_group(Command::SetTimeout(60), Some(&g), 0),
        CommandStep::Write(GroupWrite::SetTimeout(60), CommandReply::Success)
    );
    assert_eq!(
        command_with_group(Command::SetTimeout(3600), Some(&g), 0),
        CommandStep::Write(GroupWrite::SetTimeout(3600), CommandReply::Success)
    );
    assert_eq!(
        command_with_group(Command::SetTimeout(59), Some(&g), 0),
        CommandStep::Reply(CommandReply::InvalidTimeout)
    );
    assert_eq!(
        command_with_group(Command::SetTimeout(3601), Some(&g), 0),
        CommandStep::Reply(CommandReply::InvalidTimeout)
    );
    assert_eq!(
        command_with_group(Command::SetWelcome(Some("w".to_string())), Some(&g), 0),
        CommandStep::Write(GroupWrite::SetWelcome(Some("w".to_string())), CommandReply::Success)
    );
    assert_eq!(
        command_with_group(Command::Status, Some(&g), 100_000),
        CommandStep::CountStatus { since: 13_600 }
    );
    assert_eq!(
        status_reply(&g, 4, 5),
        CommandReply::Status { enabled: true, timeout_seconds: 600, verified_24h: 4, declined_24h: 5 }
    );
}

#[test]
fn settings_command_answers() {
    assert_eq!(
        settings_command_reply(false, "anubot", 9),
        (SETTINGS_GROUP_NOT_REGISTERED, None)
    );
    assert_eq!(
        settings_command_reply(true, "anubot", -9),
        (SETTINGS_COMMAND_PROMPT, Some("https://t.me/anubot?start=settings_-9".to_string()))
    );
}
