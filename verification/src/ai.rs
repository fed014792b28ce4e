//! The AI spam check: which provider adapter to use, the chat messages sent to the
//! model, and how the model's reply is read as a score from 0 to 100.
use vstd::prelude::*;

use crate::chars::{
    chars_of, is_digit, is_ws, nat_decimal, parse_i64_range, parse_i64_spec, push_nat_decimal, push_str,
    trim,
};
use crate::text::{fill_text, spam_system_prompt, SPAM_SYSTEM_PROMPT};

verus! {

/// How long one AI call may take, in seconds.
pub const AI_CALL_TIMEOUT_SECONDS: u64 = 8;

/// The most tokens the model may answer with.
pub const AI_MAX_TOKENS: u32 = 3;

/// Highest spam score.
pub const SCORE_MAX: i64 = 100;

/// The provider adapters an administrator can choose.
#[derive(Debug, Clone, Copy, PartialEq, Eq, Structural)]
pub enum AdapterKind {
    OpenAI,
    OpenAIResp,
    Anthropic,
    Gemini,
    Ollama,
    Groq,
    Xai,
    DeepSeek,
    Cohere,
}

/// The adapter a provider name selects.
pub open spec fn adapter_spec(s: Seq<char>) -> Option<AdapterKind> {
    if s == "openai"@ {
        Some(AdapterKind::OpenAI)
    } else if s == "openai_resp"@ {
        Some(AdapterKind::OpenAIResp)
    } else if s == "anthropic"@ {
        Some(AdapterKind::Anthropic)
    } else if s == "gemini"@ {
        Some(AdapterKind::Gemini)
    } else if s == "ollama"@ {
        Some(AdapterKind::Ollama)
    } else if s == "groq"@ {
        Some(AdapterKind::Groq)
    } else if s == "xai"@ {
        Some(AdapterKind::Xai)
    } else if s == "deepseek"@ {
        Some(AdapterKind::DeepSeek)
    } else if s == "cohere"@ {
        Some(AdapterKind::Cohere)
    } else {
        None
    }
}

/// The adapter for a provider name as stored in the configuration.
pub fn parse_adapter_kind(s: &str) -> (r: Option<AdapterKind>)
    ensures
        r == adapter_spec(s@),
{
    let eq = |t: &str| -> (b: bool)
        ensures
            b == (s@ == t@),
        { crate::chars::str_eq(s, t) };
    if eq("openai") {
        Some(AdapterKind::OpenAI)
    } else if eq("openai_resp") {
        Some(AdapterKind::OpenAIResp)
    } else if eq("anthropic") {
        Some(AdapterKind::Anthropic)
    } else if eq("gemini") {
        Some(AdapterKind::Gemini)
    } else if eq("ollama") {
        Some(AdapterKind::Ollama)
    } else if eq("groq") {
        Some(AdapterKind::Groq)
    } else if eq("xai") {
        Some(AdapterKind::Xai)
    } else if eq("deepseek") {
        Some(AdapterKind::DeepSeek)
    } else if eq("cohere") {
        Some(AdapterKind::Cohere)
    } else {
        None
    }
}

/// Why an AI check gave no score.
#[derive(Debug, Clone, PartialEq, Eq)]
pub enum AiError {
    /// The configuration cannot be used.
    BadConfig(&'static str),
    /// The model's reply holds no usable score.
    BadResponse(&'static str),
    /// The provider call failed; the text describes the failure.
    Genai(String),
    /// The call took longer than allowed.
    Timeout { seconds: u64 },
}

/// How an [`AiError`] reads in a log line or a message to an administrator.
pub open spec fn error_text(e: AiError) -> Seq<char> {
    match e {
        AiError::BadConfig(d) => "bad config: "@ + d@,
        AiError::BadResponse(d) => "bad response: "@ + d@,
        AiError::Genai(d) => "genai: "@ + d@,
        AiError::Timeout { seconds } => "timeout after "@ + nat_decimal(seconds as nat) + "s"@,
    }
}

impl AiError {
    /// The error as text, one line.
    pub fn message(&self) -> (s: String)
        ensures
            s@ == error_text(*self),
    {
        let mut s = String::new();
        match self {
            AiError::BadConfig(d) => {
                push_str(&mut s, "bad config: ");
                push_str(&mut s, d);
            },
            AiError::BadResponse(d) => {
                push_str(&mut s, "bad response: ");
                push_str(&mut s, d);
            },
            AiError::Genai(d) => {
                push_str(&mut s, "genai: ");
                push_str(&mut s, d.as_str());
            },
            AiError::Timeout { seconds } => {
                push_str(&mut s, "timeout after ");
                push_nat_decimal(&mut s, *seconds);
                push_str(&mut s, "s");
            },
        }
        s
    }
}

/// Detail of [`AiError::BadConfig`] for an unknown provider.
pub const UNKNOWN_PROVIDER: &'static str = "unknown provider";

/// Detail of [`AiError::BadResponse`] when the reply has no score.
pub const MISSING_SCORE: &'static str = "missing 0-100 score";

/// The score a run of digits denotes, if it is between 0 and 100.
pub open spec fn score_of(digits: Seq<char>) -> Option<i64> {
    match parse_i64_spec(digits) {
        Some(n) => if 0 <= n <= SCORE_MAX {
            Some(n)
        } else {
            None
        },
        None => None,
    }
}

/// Scans `s` with the digit run `cur` in progress: each maximal run of ASCII digits is
/// read when it ends, and the first one that denotes a score from 0 to 100 is the result.
pub open spec fn scan_score(s: Seq<char>, cur: Seq<char>) -> Option<i64>
    decreases s.len(),
{
    if s.len() == 0 {
        score_of(cur)
    } else if is_digit(s[0]) {
        scan_score(s.drop_first(), cur.push(s[0]))
    } else {
        match score_of(cur) {
            Some(x) => Some(x),
            None => scan_score(s.drop_first(), Seq::empty()),
        }
    }
}

/// The spam score in a model reply: the first run of ASCII digits that denotes a number
/// from 0 to 100.
pub open spec fn spam_score_spec(text: Seq<char>) -> Option<i64> {
    scan_score(text, Seq::empty())
}

/// A score read from digits lies between 0 and 100.
pub proof fn lemma_scan_score_in_range(s: Seq<char>, cur: Seq<char>)
    ensures
        scan_score(s, cur) matches Some(x) ==> 0 <= x <= SCORE_MAX,
    decreases s.len(),
{
    if s.len() > 0 {
        if is_digit(s[0]) {
            lemma_scan_score_in_range(s.drop_first(), cur.push(s[0]));
        } else {
            lemma_scan_score_in_range(s.drop_first(), Seq::empty());
        }
    }
}

proof fn lemma_scan_digit_run(d: Seq<char>, t: Seq<char>, cur: Seq<char>)
    requires
        forall|i: int| 0 <= i < d.len() ==> is_digit(#[trigger] d[i]),
    ensures
        scan_score(d + t, cur) == scan_score(t, cur + d),
    decreases d.len(),
{
    if d.len() == 0 {
        assert(d + t == t);
        assert(cur + d == cur);
    } else {
        assert((d + t)[0] == d[0]);
        assert((d + t).drop_first() == d.drop_first() + t);
        assert(forall|i: int| 0 <= i < d.drop_first().len() ==> d.drop_first()[i] == d[i + 1]);
        lemma_scan_digit_run(d.drop_first(), t, cur.push(d[0]));
        assert(cur.push(d[0]) + d.drop_first() == cur + d);
    }
}

proof fn lemma_scan_keeps_found(a: Seq<char>, b: Seq<char>, cur: Seq<char>)
    requires
        a.len() > 0,
        !is_digit(a.last()),
        scan_score(a, cur) is Some,
    ensures
        scan_score(a + b, cur) == scan_score(a, cur),
    decreases a.len(),
{
    assert((a + b)[0] == a[0]);
    assert((a + b).drop_first() == a.drop_first() + b);
    if is_digit(a[0]) {
        assert(a.len() > 1);
        assert(a.drop_first().last() == a.last());
        lemma_scan_keeps_found(a.drop_first(), b, cur.push(a[0]));
    } else {
        match score_of(cur) {
            Some(_) => {},
            None => {
                if a.len() == 1 {
                    assert(a.drop_first() =~= Seq::<char>::empty());
                    assert(parse_i64_spec(Seq::<char>::empty()) is None);
                } else {
                    assert(a.drop_first().last() == a.last());
                    lemma_scan_keeps_found(a.drop_first(), b, Seq::empty());
                }
            },
        }
    }
}

/// A reply that opens with a run of digits denoting a score from 0 to 100, followed by
/// any other character, scores that number, whatever comes after it (so "85/100" scores
/// 85).
pub proof fn lemma_leading_score_wins(d: Seq<char>, c: char, rest: Seq<char>)
    requires
        forall|i: int| 0 <= i < d.len() ==> is_digit(#[trigger] d[i]),
        !is_digit(c),
        score_of(d) is Some,
    ensures
        spam_score_spec(d + seq![c] + rest) == score_of(d),
{
    assert(d + seq![c] + rest == d + (seq![c] + rest));
    lemma_scan_digit_run(d, seq![c] + rest, Seq::empty());
    assert(Seq::<char>::empty() + d == d);
    assert((seq![c] + rest)[0] == c);
}

/// A reply made only of digits scores the number they denote, if it is from 0 to 100.
pub proof fn lemma_digits_only(d: Seq<char>)
    requires
        forall|i: int| 0 <= i < d.len() ==> is_digit(#[trigger] d[i]),
    ensures
        spam_score_spec(d) == score_of(d),
{
    lemma_scan_digit_run(d, Seq::empty(), Seq::empty());
    assert(d + Seq::<char>::empty() == d);
    assert(Seq::<char>::empty() + d == d);
}

/// Text without digits in front of a reply does not change its score.
pub proof fn lemma_text_before_is_skipped(p: Seq<char>, s: Seq<char>)
    requires
        forall|i: int| 0 <= i < p.len() ==> !is_digit(#[trigger] p[i]),
    ensures
        spam_score_spec(p + s) == spam_score_spec(s),
    decreases p.len(),
{
    if p.len() == 0 {
        assert(p + s == s);
    } else {
        assert((p + s)[0] == p[0]);
        assert((p + s).drop_first() == p.drop_first() + s);
        assert(parse_i64_spec(Seq::<char>::empty()) is None);
        assert(forall|i: int| 0 <= i < p.drop_first().len() ==> p.drop_first()[i] == p[i + 1]);
        lemma_text_before_is_skipped(p.drop_first(), s);
    }
}

/// The first score found is the score: once a part of a reply, ending in a non-digit,
/// holds a score, nothing appended after it changes that score.
pub proof fn lemma_first_score_wins(a: Seq<char>, b: Seq<char>)
    requires
        a.len() > 0,
        !is_digit(a.last()),
        spam_score_spec(a) is Some,
    ensures
        spam_score_spec(a + b) == spam_score_spec(a),
{
    lemma_scan_keeps_found(a, b, Seq::empty());
}

/// The score a run of digits denotes, if it is between 0 and 100.
pub fn parse_score_digits(digits: &str) -> (r: Option<i64>)
    ensures
        r == score_of(digits@),
{
    match crate::chars::parse_i64(digits) {
        Some(n) => if 0 <= n && n <= SCORE_MAX {
            Some(n)
        } else {
            None
        },
        None => None,
    }
}

fn score_of_range(v: &Vec<char>, lo: usize, hi: usize) -> (r: Option<i64>)
    requires
        lo <= hi <= v@.len(),
    ensures
        r == score_of(v@.subrange(lo as int, hi as int)),
{
    match parse_i64_range(v, lo, hi) {
        Some(n) => if 0 <= n && n <= SCORE_MAX {
            Some(n)
        } else {
            None
        },
        None => None,
    }
}

/// Reads the spam score out of a model reply.
pub fn parse_spam_score(text: &str) -> (r: Option<i64>)
    ensures
        r == spam_score_spec(text@),
        r matches Some(x) ==> 0 <= x <= SCORE_MAX,
{
    proof {
        lemma_scan_score_in_range(text@, Seq::empty());
    }
    let v = chars_of(text);
    let n = v.len();
    let mut run: usize = 0;
    let mut i: usize = 0;
    assert(v@.skip(0) == v@);
    assert(v@.subrange(0, 0) =~= Seq::<char>::empty());
    while i < n
        invariant
            n == v@.len(),
            v@ == text@,
            scan_score(text@, Seq::empty()) matches Some(x) ==> 0 <= x <= SCORE_MAX,
            run <= i <= n,
            scan_score(v@, Seq::empty()) == scan_score(v@.skip(i as int), v@.subrange(
                run as int,
                i as int,
            )),
        decreases n - i,
    {
        let c = v[i];
        assert(v@.skip(i as int)[0] == c);
        assert(v@.skip(i as int).drop_first() == v@.skip(i + 1));
        if '0' <= c && c <= '9' {
            assert(v@.subrange(run as int, i as int).push(c) == v@.subrange(run as int, i + 1));
            i += 1;
        } else {
            assert(!is_digit(c));
            assert(v@.skip(i as int).len() > 0);
            let ghost cur = v@.subrange(run as int, i as int);
            assert(scan_score(v@.skip(i as int), cur) == (match score_of(cur) {
                Some(x) => Some(x),
                None => scan_score(v@.skip(i as int).drop_first(), Seq::empty()),
            }));
            if let Some(score) = score_of_range(&v, run, i) {
                return Some(score);
            }
            i += 1;
            run = i;
            assert(v@.subrange(run as int, i as int) =~= Seq::<char>::empty());
        }
    }
    assert(v@.skip(n as int) =~= Seq::<char>::empty());
    score_of_range(&v, run, n)
}

/// Turns a model reply into a score, or the error that the reply holds none.
pub fn score_from_reply(text: &str) -> (r: Result<i64, AiError>)
    ensures
        r matches Ok(x) ==> spam_score_spec(text@) == Some(x),
        r matches Err(e) ==> spam_score_spec(text@) is None && e == AiError::BadResponse(
            MISSING_SCORE,
        ),
        r is Ok <==> spam_score_spec(text@) is Some,
{
    match parse_spam_score(text) {
        Some(x) => Ok(x),
        None => Err(AiError::BadResponse(MISSING_SCORE)),
    }
}

/// Who speaks a chat message.
#[derive(Debug, Clone, Copy, PartialEq, Eq)]
pub enum ChatRole {
    System,
    User,
}

/// One message of the conversation sent to the model.
#[derive(Debug, Clone)]
pub struct ChatMessage {
    pub role: ChatRole,
    pub content: String,
}

/// The request of one spam check.
#[derive(Debug, Clone)]
pub struct SpamCheckRequest {
    pub adapter: AdapterKind,
    pub messages: Vec<ChatMessage>,
    pub max_tokens: u32,
}

pub const CONTEXT_HEADER: &'static str =
    "【上下文,仅供理解,请不要对这一段评分】被审核用户正在回复以下消息:\n";

pub const CONTENT_HEADER: &'static str = "【被审核内容,请只对以下这一段评分】\n";

/// The conversation of a spam check: the system prompt, then the replied-to message as
/// labelled context when there is one that is not blank, then the message to score.
pub open spec fn spam_messages_spec(
    chat_title: Seq<char>,
    reply_context: Option<Seq<char>>,
    message: Seq<char>,
) -> Seq<(ChatRole, Seq<char>)> {
    let system = seq![
        (ChatRole::System, fill_text(SPAM_SYSTEM_PROMPT@, seq![("chat"@, chat_title)])),
    ];
    let context = match reply_context {
        Some(c) => if trim(c).len() > 0 {
            seq![(ChatRole::User, CONTEXT_HEADER@ + c)]
        } else {
            Seq::empty()
        },
        None => Seq::empty(),
    };
    system + context + seq![(ChatRole::User, CONTENT_HEADER@ + message)]
}

pub open spec fn messages_view(v: Seq<ChatMessage>) -> Seq<(ChatRole, Seq<char>)> {
    v.map_values(|m: ChatMessage| (m.role, m.content@))
}

fn is_blank(s: &str) -> (b: bool)
    ensures
        b == (trim(s@).len() == 0),
{
    let t = crate::chars::trim_str(s);
    t.as_str().is_empty()
}

fn prefixed(header: &str, body: &str) -> (s: String)
    ensures
        s@ == header@ + body@,
{
    let mut s = String::new();
    push_str(&mut s, header);
    push_str(&mut s, body);
    s
}

/// Prepares a spam check of `message`, sent in the chat titled `chat_title`, for the
/// provider named `provider`; fails when no adapter has that name.
pub fn prepare_spam_check(
    provider: &str,
    chat_title: &str,
    reply_context: Option<&str>,
    message: &str,
) -> (r: Result<SpamCheckRequest, AiError>)
    ensures
        r matches Err(e) ==> adapter_spec(provider@) is None && e == AiError::BadConfig(
            UNKNOWN_PROVIDER,
        ),
        r matches Ok(req) ==> adapter_spec(provider@) == Some(req.adapter) && req.max_tokens
            == AI_MAX_TOKENS && messages_view(req.messages@) == spam_messages_spec(
            chat_title@,
            match reply_context {
                Some(c) => Some(c@),
                None => None,
            },
            message@,
        ),
        r is Ok <==> adapter_spec(provider@) is Some,
{
    let adapter = match parse_adapter_kind(provider) {
        Some(k) => k,
        None => {
            return Err(AiError::BadConfig(UNKNOWN_PROVIDER));
        },
    };
    let mut messages: Vec<ChatMessage> = Vec::new();
    messages.push(ChatMessage { role: ChatRole::System, content: spam_system_prompt(chat_title) });
    let ghost with_system = messages@;
    match reply_context {
        Some(c) => {
            if !is_blank(c) {
                messages.push(ChatMessage { role: ChatRole::User, content: prefixed(CONTEXT_HEADER, c) });
            }
        },
        None => {},
    }
    let ghost with_context = messages@;
    messages.push(ChatMessage { role: ChatRole::User, content: prefixed(CONTENT_HEADER, message) });
    proof {
        let ctx = match reply_context {
            Some(c) => Some(c@),
            None => None,
        };
        assert(messages_view(messages@) =~= spam_messages_spec(chat_title@, ctx, message@));
    }
    Ok(SpamCheckRequest { adapter, messages, max_tokens: AI_MAX_TOKENS })
}

} // verus!
