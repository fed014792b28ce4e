use anubot::ai::{
    parse_adapter_kind, parse_score_digits, parse_spam_score, prepare_spam_check,
    score_from_reply, AdapterKind, AiError, ChatRole, AI_MAX_TOKENS, MISSING_SCORE,
    UNKNOWN_PROVIDER,
};
use anubot::text::spam_system_prompt;

#[test]
fn adapters_by_name() {
    let names = [
        ("openai", AdapterKind::OpenAI),
        ("openai_resp", AdapterKind::OpenAIResp),
        ("anthropic", AdapterKind::Anthropic),
        ("gemini", AdapterKind::Gemini),
        ("ollama", AdapterKind::Ollama),
        ("groq", AdapterKind::Groq),
        ("xai", AdapterKind::Xai),
        ("deepseek", AdapterKind::DeepSeek),
        ("cohere", AdapterKind::Cohere),
    ];
    for (name, kind) in names {
        assert_eq!(parse_adapter_kind(name), Some(kind));
    }
    assert_eq!(parse_adapter_kind("OpenAI"), None);
    assert_eq!(parse_adapter_kind(""), None);
}

#[test]
fn score_digits() {
    assert_eq!(parse_score_digits("0"), Some(0));
    assert_eq!(parse_score_digits("100"), Some(100));
    assert_eq!(parse_score_digits("101"), None);
    assert_eq!(parse_score_digits(""), None);
    assert_eq!(parse_score_digits("007"), Some(7));
}

#[test]
fn spam_scores_from_replies() {
    assert_eq!(parse_spam_score("85"), Some(85));
    assert_eq!(parse_spam_score("Score: 42."), Some(42));
    assert_eq!(parse_spam_score("999 then 12"), Some(12));
    assert_eq!(parse_spam_score("分数 100"), Some(100));
    assert_eq!(parse_spam_score("none"), None);
    assert_eq!(parse_spam_score(""), None);
    assert_eq!(parse_spam_score("1000"), None);
    assert_eq!(parse_spam_score("-5"), Some(5));
}

#[test]
fn replies_without_scores_are_errors() {
    assert_eq!(score_from_reply("7"), Ok(7));
    assert_eq!(score_from_reply("n/a"), Err(AiError::BadResponse(MISSING_SCORE)));
}

#[test]
fn unknown_provider_is_a_config_error() {
    let r = prepare_spam_check("nope", "T", None, "m");
    assert_eq!(r.err(), Some(AiError::BadConfig(UNKNOWN_PROVIDER)));
}

#[test]
fn spam_check_messages() {
    let req = prepare_spam_check("groq", "Rust", Some(" quoted "), "buy now").unwrap();
    assert_eq!(req.adapter, AdapterKind::Groq);
    assert_eq!(req.max_tokens, AI_MAX_TOKENS);
    assert_eq!(req.max_tokens, 3);
    assert_eq!(req.messages.len(), 3);
    assert_eq!(req.messages[0].role, ChatRole::System);
    assert_eq!(req.messages[0].content, spam_system_prompt("Rust"));
    assert_eq!(req.messages[1].role, ChatRole::User);
    assert_eq!(
        req.messages[1].content,
        "【上下文,仅供理解,请不要对这一段评分】被审核用户正在回复以下消息:\n quoted "
    );
    assert_eq!(req.messages[2].content, "【被审核内容,请只对以下这一段评分】\nbuy now");

    let req = prepare_spam_check("openai", "Rust", Some("  "), "x").unwrap();
    assert_eq!(req.messages.len(), 2);
    let req = prepare_spam_check("openai", "Rust", None, "x").unwrap();
    assert_eq!(req.messages.len(), 2);
    assert_eq!(req.messages[1].role, ChatRole::User);
}

#[test]
fn error_messages() {
    assert_eq!(AiError::BadConfig("unknown provider").message(), "bad config: unknown provider");
    assert_eq!(
        AiError::BadResponse("missing 0-100 score").message(),
        "bad response: missing 0-100 score"
    );
    assert_eq!(AiError::Genai("boom".to_string()).message(), "genai: boom");
    assert_eq!(AiError::Timeout { seconds: 8 }.message(), "timeout after 8s");
}
