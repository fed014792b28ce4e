use anubot::ai::AiError;
use anubot::group::{AiConfig, AiField};
use anubot::settings::{
    callback_toast, check_settings_reply, display_field, display_key, is_key_maskable,
    is_reply_to_this_bot,
    main_menu_keyboard, main_menu_text, open_field_data, open_field_prompt, parse_callback,
    parse_tag, provider_data, render_provider_picker, settings_reply_outcome, test_data,
    test_result_message, validate_settings_value, CallbackAction, FieldPrompt, ReplyOutcome,
    SettingsTarget,
};
use anubot::text::{
    SETTINGS_EMPTY_VALUE, SETTINGS_INVALID_NUMBER, SETTINGS_INVALID_URL,
    SETTINGS_PROMPT_PICK_PROVIDER, SETTINGS_TEST_PENDING, SETTINGS_UNSET,
};

#[test]
fn parse_tag_finds_trailing_marker() {
    let t = parse_tag("请回复 API URL\n\n[set:-1001234567890:url]").unwrap();
    assert_eq!(t.chat_id, -1001234567890);
    assert!(matches!(t.field, AiField::ApiBase));
}

#[test]
fn parse_tag_returns_none_when_missing() {
    assert!(parse_tag("nothing here").is_none());
}

#[test]
fn parse_callback_open_field_roundtrip() {
    let CallbackAction::OpenField(t) = parse_callback("set:42:model").unwrap() else {
        panic!("expected OpenField");
    };
    assert_eq!(t.chat_id, 42);
    assert!(matches!(t.field, AiField::Model));
}

#[test]
fn parse_callback_setval_provider_roundtrip() {
    let CallbackAction::SetProvider { chat_id, value } =
        parse_callback("setval:-1001:provider:anthropic").unwrap()
    else {
        panic!("expected SetProvider");
    };
    assert_eq!(chat_id, -1001);
    assert_eq!(value, "anthropic");
}

#[test]
fn parse_callback_setval_non_provider_field_rejected() {
    assert!(parse_callback("setval:42:url:https://x").is_none());
}

#[test]
fn parse_callback_test_roundtrip() {
    let CallbackAction::Test { chat_id } = parse_callback("test:-1003900460608").unwrap() else {
        panic!("expected Test");
    };
    assert_eq!(chat_id, -1003900460608);
}

#[test]
fn parse_tag_uses_the_last_marker() {
    let t = parse_tag("[set:1:url] quoted, then [set:2:model]").unwrap();
    assert_eq!(t, SettingsTarget { chat_id: 2, field: AiField::Model });
}

#[test]
fn parse_tag_rejects_bad_parts() {
    assert!(parse_tag("[set:abc:url]").is_none());
    assert!(parse_tag("[set:1:colour]").is_none());
    assert!(parse_tag("[set:1url]").is_none());
    assert!(parse_tag("[set:1:url").is_none());
}

#[test]
fn parse_tag_accepts_long_field_names() {
    let t = parse_tag("x[set:7:spam_window_hours]").unwrap();
    assert_eq!(t.field, AiField::SpamWindowHours);
}

#[test]
fn parse_callback_keeps_colons_in_provider_value() {
    let Some(CallbackAction::SetProvider { chat_id, value }) =
        parse_callback("setval:5:provider:a:b")
    else {
        panic!("expected SetProvider");
    };
    assert_eq!(chat_id, 5);
    assert_eq!(value, "a:b");
}

#[test]
fn parse_callback_rejects_unknown_data() {
    assert!(parse_callback("").is_none());
    assert!(parse_callback("hello").is_none());
    assert!(parse_callback("set:x:model").is_none());
    assert!(parse_callback("set:1:unknown").is_none());
    assert!(parse_callback("test:").is_none());
    assert!(parse_callback("test:12x").is_none());
    assert!(parse_callback("setval:1:provider").is_none());
}

#[test]
fn button_data_parses_back() {
    for field in [
        AiField::Provider,
        AiField::ApiBase,
        AiField::ApiKey,
        AiField::Model,
        AiField::SpamMessageLimit,
        AiField::SpamWindowHours,
        AiField::SpamKickThreshold,
    ] {
        let data = open_field_data(-100, field);
        let Some(CallbackAction::OpenField(t)) = parse_callback(&data) else {
            panic!("expected OpenField for {data}");
        };
        assert_eq!(t, SettingsTarget { chat_id: -100, field });
    }
    assert_eq!(open_field_data(9, AiField::ApiBase), "set:9:url");
    assert_eq!(provider_data(9, "groq"), "setval:9:provider:groq");
    assert_eq!(test_data(-9), "test:-9");
    assert!(matches!(
        parse_callback(&test_data(i64::MIN)),
        Some(CallbackAction::Test { chat_id: i64::MIN })
    ));
}

#[test]
fn main_menu_buttons() {
    let rows = main_menu_keyboard(12);
    let data: Vec<Vec<&str>> = rows
        .iter()
        .map(|r| r.iter().map(|b| b.data.as_str()).collect())
        .collect();
    assert_eq!(
        data,
        vec![
            vec!["set:12:provider", "set:12:url"],
            vec!["set:12:key", "set:12:model"],
            vec!["set:12:limit", "set:12:window", "set:12:kick"],
            vec!["test:12"],
        ]
    );
    assert_eq!(rows[0][0].label, "Provider");
    assert_eq!(rows[3][0].label, "测试连通");
}

#[test]
fn provider_picker_has_two_per_row() {
    let rows = render_provider_picker(-5);
    let sizes: Vec<usize> = rows.iter().map(|r| r.len()).collect();
    assert_eq!(sizes, vec![2, 2, 2, 2, 1]);
    assert_eq!(rows[0][0].label, "OpenAI");
    assert_eq!(rows[0][0].data, "setval:-5:provider:openai");
    assert_eq!(rows[4][0].label, "Cohere");
    assert_eq!(rows[4][0].data, "setval:-5:provider:cohere");
    for row in &rows {
        for b in row {
            assert!(matches!(
                parse_callback(&b.data),
                Some(CallbackAction::SetProvider { chat_id: -5, .. })
            ));
        }
    }
}

#[test]
fn display_field_and_key() {
    assert_eq!(display_field(None), SETTINGS_UNSET);
    assert_eq!(display_field(Some("gpt")), "gpt");
    assert_eq!(display_key(None), SETTINGS_UNSET);
    assert_eq!(display_key(Some("")), "***");
    assert_eq!(display_key(Some("12345678")), "***");
    assert_eq!(display_key(Some("sk-abcdefgh1234")), "sk-a...1234");
}

#[test]
fn menu_text_shows_values_and_defaults() {
    let mut cfg = AiConfig::empty();
    cfg.provider = Some("openai".to_string());
    cfg.api_key = Some("sk-0123456789".to_string());
    cfg.spam_check_message_limit = Some(7);
    let text = main_menu_text(-42, &cfg);
    assert!(text.starts_with("AI 反垃圾配置(chat_id=-42)\n\n"));
    assert!(text.contains("Provider: openai\n"));
    assert!(text.contains(&format!("API URL:  {}\n", SETTINGS_UNSET)));
    assert!(text.contains("API Key:  sk-0...6789\n"));
    assert!(text.contains("检查消息数: 7\n"));
    assert!(text.contains("检查时间窗: 24 小时\n"));
    assert!(text.contains("累计踢出: 2 条"));
    assert!(text.contains("删除分数: {delete_score}\n"));
    assert!(text.contains("踢出分数: {kick_score}\n"));
}

#[test]
fn field_prompts() {
    let p = open_field_prompt(SettingsTarget { chat_id: 3, field: AiField::Provider });
    let FieldPrompt::ProviderPicker { text, keyboard } = p else {
        panic!("expected the picker");
    };
    assert_eq!(text, SETTINGS_PROMPT_PICK_PROVIDER);
    assert_eq!(keyboard.len(), 5);

    let p = open_field_prompt(SettingsTarget { chat_id: -77, field: AiField::SpamKickThreshold });
    let FieldPrompt::ForceReply { text } = p else {
        panic!("expected a question");
    };
    assert!(text.ends_with("\n\n[set:-77:kick]"));
    assert_eq!(
        parse_tag(&text),
        Some(SettingsTarget { chat_id: -77, field: AiField::SpamKickThreshold })
    );
}

#[test]
fn settings_values_are_validated() {
    assert!(validate_settings_value(AiField::SpamMessageLimit, "5"));
    assert!(!validate_settings_value(AiField::SpamMessageLimit, "0"));
    assert!(!validate_settings_value(AiField::SpamWindowHours, "-3"));
    assert!(!validate_settings_value(AiField::SpamKickThreshold, "two"));
    assert!(validate_settings_value(AiField::Model, "anything"));
    assert!(validate_settings_value(AiField::ApiKey, ""));
}

#[test]
fn reply_outcomes_in_order() {
    assert_eq!(
        settings_reply_outcome(AiField::Model, None, true),
        ReplyOutcome::Rejected(SETTINGS_EMPTY_VALUE)
    );
    assert_eq!(
        settings_reply_outcome(AiField::ApiBase, Some("   "), false),
        ReplyOutcome::Rejected(SETTINGS_EMPTY_VALUE)
    );
    assert_eq!(
        settings_reply_outcome(AiField::ApiBase, Some("nope"), false),
        ReplyOutcome::Rejected(SETTINGS_INVALID_URL)
    );
    assert_eq!(
        settings_reply_outcome(AiField::SpamWindowHours, Some(" 0 "), true),
        ReplyOutcome::Rejected(SETTINGS_INVALID_NUMBER)
    );
    assert_eq!(
        settings_reply_outcome(AiField::Model, Some("  gpt-4o  "), false),
        ReplyOutcome::Store("gpt-4o".to_string())
    );
}

#[test]
fn api_base_replies_go_through_the_url_parser() {
    assert_eq!(
        check_settings_reply(AiField::ApiBase, Some("not a url")),
        ReplyOutcome::Rejected(SETTINGS_INVALID_URL)
    );
    assert_eq!(
        check_settings_reply(AiField::ApiBase, Some(" https://api.openai.com/v1 ")),
        ReplyOutcome::Store("https://api.openai.com/v1".to_string())
    );
    assert_eq!(
        check_settings_reply(AiField::Model, Some("not a url")),
        ReplyOutcome::Store("not a url".to_string())
    );
}

#[test]
fn reply_must_answer_the_bot() {
    assert!(is_reply_to_this_bot(Some(10), 10));
    assert!(!is_reply_to_this_bot(Some(11), 10));
    assert!(!is_reply_to_this_bot(None, 10));
}

#[test]
fn callback_toasts() {
    assert_eq!(
        callback_toast(&parse_callback("setval:1:provider:groq")),
        Some("已选择 groq".to_string())
    );
    assert_eq!(
        callback_toast(&parse_callback("test:1")),
        Some(SETTINGS_TEST_PENDING.to_string())
    );
    assert_eq!(callback_toast(&parse_callback("set:1:model")), None);
    assert_eq!(callback_toast(&None), None);
}

#[test]
fn test_results() {
    assert_eq!(test_result_message(&Ok(3)), "连通正常。");
    assert_eq!(
        test_result_message(&Err(AiError::Timeout { seconds: 8 })),
        "测试失败:timeout after 8s"
    );
    assert_eq!(
        test_result_message(&Err(AiError::BadConfig("unknown provider"))),
        "测试失败:bad config: unknown provider"
    );
}

#[test]
fn stored_counts_are_positive() {
    let ReplyOutcome::Store(v) =
        settings_reply_outcome(AiField::SpamKickThreshold, Some(" 4 "), true)
    else {
        panic!("expected the value to be stored");
    };
    let cfg = AiConfig::empty().with_field(AiField::SpamKickThreshold, Some(&v));
    assert_eq!(cfg.spam_kick_threshold, Some(4));
    assert_eq!(cfg.spam_kick_threshold(), 4);
}

#[test]
fn keys_maskable_on_char_boundaries() {
    assert!(is_key_maskable(""));
    assert!(is_key_maskable("12345678"));
    assert!(is_key_maskable("sk-abcdefgh1234"));
    // 4 bytes in, the second "é" is split
    assert!(!is_key_maskable("aéébcdefgh"));
    // 4 bytes from the end, "é" is split
    assert!(!is_key_maskable("abcdefgéxyz"));
    assert!(is_key_maskable("ééééé"));
}
