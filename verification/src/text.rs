//! User-facing texts and the `{key}` template filler that renders them.
use vstd::prelude::*;

use crate::chars::{
    chars_of, find_char, find_in_range, int_decimal, lemma_find_char, lemma_find_char_none, push_char,
    push_i64, push_range, push_str, range_eq,
};

verus! {

pub const DEFAULT_GROUP_VERIFICATION_TEXT: &'static str = "欢迎 {user}！加入 {chat} 需要完成人机验证,\
     请点击下方按钮前往与机器人的私聊,\
     在 {timeout} 分钟内完成验证,超时将被移出群组。";

pub const DEFAULT_BUTTON_LABEL: &'static str = "前往私聊验证";

pub const DEFAULT_DM_VERIFICATION_TEXT: &'static str = "你好 {user},\
     请点击下方按钮完成在《{chat}》的人机验证。";

pub const DEFAULT_DM_BUTTON_LABEL: &'static str = "点击验证";

pub const DM_NO_PENDING: &'static str = "没有待验证的请求,或已过期。";

pub const CMD_ENABLE: &'static str = "启用本群的人机验证";
pub const CMD_DISABLE: &'static str = "停用本群的人机验证";
pub const CMD_SET_TIMEOUT: &'static str = "设置验证超时(秒,60-3600)";
pub const CMD_SET_WELCOME: &'static str = "自定义欢迎语(清空则恢复默认)";
pub const CMD_SET_BUTTON: &'static str = "自定义按钮文字(清空则恢复默认)";
pub const CMD_STATUS: &'static str = "查看本群验证状态";
pub const CMD_SETTINGS: &'static str = "在私聊中配置 AI 反垃圾检测";
pub const CMD_BAN: &'static str = "封禁被回复消息的用户并删除该消息";
pub const CMD_TEST_SPAM: &'static str = "回复消息后测试 AI 反垃圾检测";

pub const SETTINGS_LINK_LABEL: &'static str = "在私聊中配置";

pub const SETTINGS_NOT_ADMIN: &'static str = "你已不是该群管理员,无法配置。";

pub const SETTINGS_GROUP_NOT_REGISTERED: &'static str = "请先在群里 /enable 后再配置 AI 检测。";

pub const SETTINGS_PROMPT_API_BASE: &'static str = "请回复新的 OpenAI 兼容 API base URL\
     (例如 https://api.openai.com/v1 或 http://localhost:11434/v1)。";

pub const SETTINGS_PROMPT_API_KEY: &'static str = "请回复新的 API Key。";

pub const SETTINGS_PROMPT_MODEL: &'static str = "请回复要使用的模型名,例如 gpt-4o-mini、qwen2.5:7b。";

pub const SETTINGS_PROMPT_SPAM_MESSAGE_LIMIT: &'static str = "请回复要检查的新成员消息数。";

pub const SETTINGS_PROMPT_SPAM_WINDOW_HOURS: &'static str = "请回复验证通过后的检查时间窗小时数。";

pub const SETTINGS_PROMPT_SPAM_DELETE_SCORE: &'static str = "请回复删除消息的垃圾分数阈值(0-100)。";

pub const SETTINGS_PROMPT_SPAM_KICK_SCORE: &'static str = "请回复直接踢出的垃圾分数阈值(0-100)。";

pub const SETTINGS_PROMPT_SPAM_KICK_THRESHOLD: &'static str = "请回复累计多少条消息达到删除阈值后踢出。";

pub const SETTINGS_INVALID_URL: &'static str = "看起来不是合法的 URL,请检查后重发。";

pub const SETTINGS_EMPTY_VALUE: &'static str = "内容不能为空,请重新回复。";

pub const SETTINGS_INVALID_NUMBER: &'static str = "请输入有效数字,并确认在允许范围内。";

pub const SETTINGS_TEST_PENDING: &'static str = "正在测试连通,请稍候...";
pub const SETTINGS_TEST_MISSING_CONFIG: &'static str =
    "请先填齐 Provider / API URL / API Key / Model 4 项后再测试。";
pub const SETTINGS_TEST_OK: &'static str = "连通正常。";
pub const SETTINGS_TEST_FAILED_PREFIX: &'static str = "测试失败:";
pub const SETTINGS_UNSET: &'static str = "(未设置)";

pub const BTN_SET_PROVIDER: &'static str = "Provider";
pub const BTN_SET_API_BASE: &'static str = "API URL";
pub const BTN_SET_API_KEY: &'static str = "API Key";
pub const BTN_SET_MODEL: &'static str = "Model";
pub const BTN_SET_SPAM_MESSAGE_LIMIT: &'static str = "检查消息数";
pub const BTN_SET_SPAM_WINDOW_HOURS: &'static str = "检查时间窗";
pub const BTN_SET_SPAM_DELETE_SCORE: &'static str = "删除分数";
pub const BTN_SET_SPAM_KICK_SCORE: &'static str = "踢出分数";
pub const BTN_SET_SPAM_KICK_THRESHOLD: &'static str = "累计踢出";
pub const BTN_TEST: &'static str = "测试连通";

pub const SETTINGS_PROMPT_PICK_PROVIDER: &'static str = "请选择 AI provider:";

pub const SETTINGS_PROVIDER_SELECTED_PREFIX: &'static str = "已选择 ";

pub const SETTINGS_COMMAND_PROMPT: &'static str = "请点击下方按钮在私聊中完成 AI 检测配置:";

pub const REPLY_OK: &'static str = "操作成功。";
pub const REPLY_INVALID_TIMEOUT: &'static str = "超时时长无效,允许范围 60-3600 秒。";
pub const REPLY_STATUS_ENABLED: &'static str = "已启用";
pub const REPLY_STATUS_DISABLED: &'static str = "已停用";
pub const REPLY_STATUS_TEMPLATE: &'static str = "验证状态:{state}\n超时设置:{timeout_seconds} 秒\n\
     过去 24 小时已验证:{verified_24h}\n过去 24 小时已拒绝:{declined_24h}";
pub const REPLY_NOT_REGISTERED_TEMPLATE: &'static str =
    "本群尚未启用验证,请先执行 /enable@{bot_username}。";
pub const REPLY_NOT_SUPERGROUP: &'static str =
    "本群是普通群组,无法对成员做限制,需要先升级为超级群组 (supergroup)。";
pub const REPLY_BAN_NEED_REPLY: &'static str = "请回复一条用户消息后使用 /ban。";
pub const REPLY_BAN_NO_USER: &'static str = "无法识别被回复消息的发送者。";
pub const REPLY_TEST_SPAM_NEED_REPLY: &'static str = "请回复一条消息后使用 /test_spam。";
pub const REPLY_TEST_SPAM_NO_TEXT: &'static str = "被回复消息没有可检查的文本。";
pub const REPLY_TEST_SPAM_MISSING_CONFIG: &'static str = "请先配置完整 AI 检查。";
pub const REPLY_TEST_SPAM_FAILED_TEMPLATE: &'static str = "AI 检查失败:{error}";

pub const FORCE_REPLY_PLACEHOLDER: &'static str = "在此输入...";

pub const SETTINGS_AI_CONFIG_TEMPLATE: &'static str = "AI 反垃圾配置(chat_id={chat})\n\n\
     Provider: {provider}\n\
     API URL:  {base}\n\
     API Key:  {key}\n\
     Model:    {model}\n\
     检查消息数: {limit}\n\
     检查时间窗: {window_hours} 小时\n\
     删除分数: {delete_score}\n\
     踢出分数: {kick_score}\n\
     累计踢出: {kick_threshold} 条\n\n\
     点击下方按钮修改对应字段。\n\
     四项全部填写后,新成员验证通过后的前 {limit} 条消息,或在前 {window_hours} 小时内,将自动经 AI 评分；达到 {delete_score} 分删除,达到 {kick_score} 分直接踢出；累计 {kick_threshold} 条达到删除分数后踢出。";

pub const PROVIDER_BUTTONS: [(&'static str, &'static str); 9] = [
    ("OpenAI", "openai"),
    ("OpenAI Responses", "openai_resp"),
    ("Anthropic", "anthropic"),
    ("Gemini", "gemini"),
    ("Ollama", "ollama"),
    ("Groq", "groq"),
    ("xAI", "xai"),
    ("DeepSeek", "deepseek"),
    ("Cohere", "cohere"),
];

pub const SPAM_SYSTEM_PROMPT: &'static str = "你是 Telegram 群组反垃圾消息助手。\
     判断以下用户消息是否是垃圾消息(典型特征:广告引流、推广联系方式、\
     博彩 / 色情链接、加好友诱导、空泛刷屏、机器人代发等)。\
     只输出一个 0 到 100 的整数分数,分数越高越像垃圾消息。不要任何解释。";

pub const WEB_VERIFY_TITLE: &'static str = "Anubot 验证";
pub const WEB_VERIFY_LINK_INVALID: &'static str = "该验证链接无效,请返回群组重新申请。";
pub const WEB_VERIFY_SERVICE_ERROR: &'static str = "服务异常,请稍后再试。";
pub const WEB_VERIFY_EXPIRED: &'static str = "本次验证已失效,请返回群组重新申请。";
pub const WEB_VERIFY_UNRESTRICT_FAILED: &'static str = "解除禁言失败,请稍后再试。";
pub const WEB_VERIFY_OK: &'static str = "验证通过,请返回群组。";

/// Label of the bot-command menu entry for `/unspam`.
pub const CMD_UNSPAM: &'static str = "撤销被回复用户的一次垃圾计数";

// ---------------------------------------------------------------------------
// Template filling
// ---------------------------------------------------------------------------

/// The `(key, value)` pairs of `fill`, as character sequences.
pub open spec fn pairs_view(pairs: Seq<(&str, &str)>) -> Seq<(Seq<char>, Seq<char>)> {
    pairs.map_values(|p: (&str, &str)| (p.0@, p.1@))
}

/// The value of the first pair whose key is `key`.
pub open spec fn lookup(pairs: Seq<(Seq<char>, Seq<char>)>, key: Seq<char>) -> Option<Seq<char>>
    decreases pairs.len(),
{
    if pairs.len() == 0 {
        None
    } else if pairs[0].0 == key {
        Some(pairs[0].1)
    } else {
        lookup(pairs.drop_first(), key)
    }
}

/// What a `{key}` placeholder becomes: the key's value, or the placeholder itself
/// when no pair has that key.
pub open spec fn replacement(pairs: Seq<(Seq<char>, Seq<char>)>, key: Seq<char>) -> Seq<char> {
    match lookup(pairs, key) {
        Some(v) => v,
        None => seq!['{'] + key + seq!['}'],
    }
}

/// The template `t` with each `{key}` placeholder replaced, left to right.
/// Substituted values are not scanned again, and a `{` without a later `}`
/// is kept as it stands, together with the rest of the template.
pub open spec fn fill_text(t: Seq<char>, pairs: Seq<(Seq<char>, Seq<char>)>) -> Seq<char>
    decreases t.len(),
{
    match find_char(t, '{') {
        None => t,
        Some(start) => {
            let after = t.skip(start + 1);
            match find_char(after, '}') {
                None => t,
                Some(end) => {
                    proof {
                        lemma_find_char(t, '{');
                        lemma_find_char(after, '}');
                    }
                    t.take(start) + replacement(pairs, after.take(end)) + fill_text(
                        after.skip(end + 1),
                        pairs,
                    )
                },
            }
        },
    }
}

/// Index of the first pair whose key is `v[lo..hi]`.
fn lookup_range(pairs: &[(&str, &str)], v: &Vec<char>, lo: usize, hi: usize) -> (r: Option<usize>)
    requires
        lo <= hi <= v@.len(),
    ensures
        match r {
            Some(i) => i < pairs@.len() && lookup(
                pairs_view(pairs@),
                v@.subrange(lo as int, hi as int),
            ) == Some(pairs@[i as int].1@),
            None => lookup(pairs_view(pairs@), v@.subrange(lo as int, hi as int)) is None,
        },
{
    let ghost key = v@.subrange(lo as int, hi as int);
    let ghost pv = pairs_view(pairs@);
    let mut i: usize = 0;
    assert(pv.skip(0) == pv);
    while i < pairs.len()
        invariant
            lo <= hi <= v@.len(),
            key == v@.subrange(lo as int, hi as int),
            pv == pairs_view(pairs@),
            i <= pairs@.len(),
            lookup(pv, key) == lookup(pv.skip(i as int), key),
        decreases pairs.len() - i,
    {
        let k = chars_of(pairs[i].0);
        assert(pv.skip(i as int)[0] == (pairs@[i as int].0@, pairs@[i as int].1@));
        if range_eq(v, lo, hi, &k) {
            return Some(i);
        }
        assert(pv.skip(i as int).drop_first() == pv.skip(i + 1));
        i += 1;
    }
    None
}

/// Renders the template text `tv[pos..]` up to and including its first placeholder,
/// returning where the rest begins, or renders all of it and returns `None`.
#[verifier::rlimit(40)]
fn fill_piece(tv: &Vec<char>, pos: usize, pairs: &[(&str, &str)], out: &mut String) -> (next:
    Option<usize>)
    requires
        pos <= tv@.len(),
    ensures
        match next {
            None => final(out)@ == old(out)@ + fill_text(
                tv@.subrange(pos as int, tv@.len() as int),
                pairs_view(pairs@),
            ),
            Some(q) => pos < q <= tv@.len() && old(out)@ + fill_text(
                tv@.subrange(pos as int, tv@.len() as int),
                pairs_view(pairs@),
            ) == final(out)@ + fill_text(
                tv@.subrange(q as int, tv@.len() as int),
                pairs_view(pairs@),
            ),
        },
{
    let n = tv.len();
    let ghost p = pairs_view(pairs@);
    let ghost t = tv@.subrange(pos as int, n as int);
    match find_in_range(tv, pos, n, '{') {
        None => {
            push_range(out, tv, pos, n);
            None
        },
        Some(off) => {
            proof {
                lemma_find_char(t, '{');
            }
            let start = pos + off;
            let ghost after = t.skip(off + 1);
            assert(after == tv@.subrange(start + 1, n as int));
            match find_in_range(tv, start + 1, n, '}') {
                None => {
                    push_range(out, tv, pos, n);
                    None
                },
                Some(e) => {
                    proof {
                        lemma_find_char(after, '}');
                    }
                    let kend = start + 1 + e;
                    let ghost key = after.take(e as int);
                    let ghost rest = after.skip(e + 1);
                    assert(t.take(off as int) == tv@.subrange(pos as int, start as int));
                    assert(key == tv@.subrange(start + 1, kend as int));
                    assert(rest == tv@.subrange(kend + 1, n as int));
                    assert(fill_text(t, p) == t.take(off as int) + replacement(p, key) + fill_text(
                        rest,
                        p,
                    ));
                    let ghost out0 = out@;
                    push_range(out, tv, pos, start);
                    match lookup_range(pairs, tv, start + 1, kend) {
                        Some(i) => {
                            push_str(out, pairs[i].1);
                        },
                        None => {
                            push_char(out, '{');
                            push_range(out, tv, start + 1, kend);
                            push_char(out, '}');
                            assert(out@ == out0 + t.take(off as int) + (seq!['{'] + key + seq!['}']));
                        },
                    }
                    assert(out@ == out0 + t.take(off as int) + replacement(p, key));
                    Some(kend + 1)
                },
            }
        },
    }
}

/// Replaces each `{key}` in `template` by the value of the first pair with that key.
/// Unknown placeholders, and a `{` that no `}` follows, are kept as they are;
/// substituted values are never scanned for placeholders.
pub fn fill(template: &str, pairs: &[(&str, &str)]) -> (out: String)
    ensures
        out@ == fill_text(template@, pairs_view(pairs@)),
{
    let tv = chars_of(template);
    let ghost p = pairs_view(pairs@);
    let n = tv.len();
    let mut out = String::new();
    let mut pos: usize = 0;
    assert(tv@.subrange(0, n as int) == tv@);
    loop
        invariant
            n == tv@.len(),
            tv@ == template@,
            p == pairs_view(pairs@),
            pos <= n,
            out@ + fill_text(tv@.subrange(pos as int, n as int), p) == fill_text(tv@, p),
        decreases n - pos,
    {
        match fill_piece(&tv, pos, pairs, &mut out) {
            None => {
                return out;
            },
            Some(q) => {
                pos = q;
            },
        }
    }
}

/// With no pairs, every placeholder is kept and the template comes back unchanged.
pub proof fn lemma_fill_without_pairs(t: Seq<char>)
    ensures
        fill_text(t, Seq::empty()) == t,
    decreases t.len(),
{
    match find_char(t, '{') {
        None => {},
        Some(start) => {
            lemma_find_char(t, '{');
            let after = t.skip(start + 1);
            match find_char(after, '}') {
                None => {},
                Some(end) => {
                    lemma_find_char(after, '}');
                    let rest = after.skip(end + 1);
                    lemma_fill_without_pairs(rest);
                    assert(t =~= t.take(start) + (seq!['{'] + after.take(end) + seq!['}']) + rest);
                },
            }
        },
    }
}

/// A template with no `{` is returned unchanged, whatever the pairs.
pub proof fn lemma_fill_plain(t: Seq<char>, pairs: Seq<(Seq<char>, Seq<char>)>)
    requires
        forall|i: int| 0 <= i < t.len() ==> t[i] != '{',
    ensures
        fill_text(t, pairs) == t,
{
    lemma_find_char_none(t, '{');
}

/// The marker that a settings prompt carries: `"\n\n[set:{chat_id}:{field_tag}]"`.
pub open spec fn settings_tag_text(chat_id: int, field_tag: Seq<char>) -> Seq<char> {
    "\n\n[set:"@ + int_decimal(chat_id) + ":"@ + field_tag + "]"@
}

/// The marker appended to a settings prompt, naming the chat and the field that a
/// reply to the prompt sets.
pub fn settings_tag(chat_id: i64, field_tag: &str) -> (s: String)
    ensures
        s@ == settings_tag_text(chat_id as int, field_tag@),
{
    let mut s = String::new();
    push_str(&mut s, "\n\n[set:");
    push_i64(&mut s, chat_id);
    push_str(&mut s, ":");
    push_str(&mut s, field_tag);
    push_str(&mut s, "]");
    s
}

/// The system prompt of an AI spam check for a message in the chat titled `chat_title`.
pub fn spam_system_prompt(chat_title: &str) -> (s: String)
    ensures
        s@ == fill_text(SPAM_SYSTEM_PROMPT@, seq![("chat"@, chat_title@)]),
{
    let pairs = [("chat", chat_title)];
    let s = fill(SPAM_SYSTEM_PROMPT, &pairs);
    assert(pairs_view(pairs@) =~= seq![("chat"@, chat_title@)]);
    s
}

} // verus!
