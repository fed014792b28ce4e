//! Rules of talking to Telegram: which failures are retried and how long to wait, how
//! ids are converted, and how a member is mentioned in HTML messages.
use vstd::prelude::*;

use crate::chars::{chars_of, int_decimal, push_char, push_i64, push_str};
use crate::text::{fill, fill_text, pairs_view};

verus! {

/// How many times a request is tried in all.
pub const TG_MAX_ATTEMPTS: u32 = 3;

/// The wait before the first retry, in milliseconds; it doubles for each further retry.
pub const TG_INITIAL_BACKOFF_MS: u64 = 200;

/// The kinds of failure a Telegram request can end in, as far as retrying cares.
#[derive(Debug, Clone, Copy, PartialEq, Eq, Structural)]
pub enum TgErrorKind {
    /// Telegram asked to slow down.
    RetryAfter,
    /// The network failed.
    Network,
    /// An I/O error occurred.
    Io,
    /// Any other failure, which trying again will not cure.
    Other,
}

/// Failures worth trying again.
pub open spec fn transient(k: TgErrorKind) -> bool {
    k != TgErrorKind::Other
}

pub fn is_transient(k: TgErrorKind) -> (b: bool)
    ensures
        b == transient(k),
{
    !matches!(k, TgErrorKind::Other)
}

/// Progress of a request's attempts.
#[derive(Debug, Clone, Copy, PartialEq, Eq)]
pub struct RetryState {
    /// The attempt under way, counted from 1.
    pub attempt: u32,
    /// The wait before the next attempt, in milliseconds.
    pub delay_ms: u64,
}

/// The state of the first attempt.
pub fn retry_start() -> (s: RetryState)
    ensures
        s.attempt == 1,
        s.delay_ms == TG_INITIAL_BACKOFF_MS,
{
    RetryState { attempt: 1, delay_ms: TG_INITIAL_BACKOFF_MS }
}

pub open spec fn doubled(ms: u64) -> u64 {
    if ms <= u64::MAX / 2 {
        (ms * 2) as u64
    } else {
        u64::MAX
    }
}

/// The attempt after one that failed with `kind`: the next attempt, after twice the wait,
/// while the failure is transient and attempts remain; otherwise none.
pub open spec fn next_attempt(state: RetryState, kind: TgErrorKind) -> Option<RetryState> {
    if transient(kind) && state.attempt < TG_MAX_ATTEMPTS {
        Some(RetryState { attempt: (state.attempt + 1) as u32, delay_ms: doubled(state.delay_ms) })
    } else {
        None
    }
}

/// What to do after an attempt failed with `kind`: wait `state.delay_ms` and try again
/// (returned as the next state) while the failure is transient and attempts remain, or
/// give up (`None`) and report the failure.
pub fn after_failure(state: RetryState, kind: TgErrorKind) -> (next: Option<RetryState>)
    requires
        1 <= state.attempt <= TG_MAX_ATTEMPTS,
    ensures
        next == next_attempt(state, kind),
        next is Some <==> transient(kind) && state.attempt < TG_MAX_ATTEMPTS,
        next matches Some(n) ==> n.attempt == state.attempt + 1 && n.delay_ms == doubled(
            state.delay_ms,
        ),
{
    if is_transient(kind) && state.attempt < TG_MAX_ATTEMPTS {
        let delay_ms = if state.delay_ms <= u64::MAX / 2 {
            state.delay_ms * 2
        } else {
            u64::MAX
        };
        Some(RetryState { attempt: state.attempt + 1, delay_ms })
    } else {
        None
    }
}

/// Whatever failures come back, a request is tried at most three times: from the first
/// attempt, a second follows after 200 ms and a third after 400 ms more, and after the
/// third no attempt follows.
pub proof fn lemma_retry_bounded(k1: TgErrorKind, k2: TgErrorKind, k3: TgErrorKind)
    ensures
        ({
            let s1 = RetryState { attempt: 1, delay_ms: TG_INITIAL_BACKOFF_MS };
            &&& s1.delay_ms == 200
            &&& next_attempt(s1, k1) matches Some(s2) ==> {
                &&& s2.attempt == 2
                &&& s2.delay_ms == 400
                &&& next_attempt(s2, k2) matches Some(s3) ==> {
                    &&& s3.attempt == 3
                    &&& next_attempt(s3, k3) is None
                }
            }
        }),
{
}

/// A user id as Telegram's unsigned id; negative ids become 0.
pub fn to_user_id(id: i64) -> (u: u64)
    ensures
        u == (if id > 0 {
            id as int
        } else {
            0
        }),
{
    if id > 0 {
        id as u64
    } else {
        0
    }
}

/// The HTML escape of one character.
pub open spec fn escape_char(c: char) -> Seq<char> {
    if c == '<' {
        "&lt;"@
    } else if c == '>' {
        "&gt;"@
    } else if c == '&' {
        "&amp;"@
    } else if c == '"' {
        "&quot;"@
    } else if c == '\'' {
        "&#39;"@
    } else {
        seq![c]
    }
}

/// The HTML escape of a text, character by character.
pub open spec fn html_escape_text(s: Seq<char>) -> Seq<char>
    decreases s.len(),
{
    if s.len() == 0 {
        Seq::empty()
    } else {
        html_escape_text(s.drop_last()) + escape_char(s.last())
    }
}

/// Escapes `<`, `>`, `&`, `"` and `'` for HTML.
pub fn html_escape(s: &str) -> (out: String)
    ensures
        out@ == html_escape_text(s@),
{
    let v = chars_of(s);
    let mut out = String::new();
    let mut i: usize = 0;
    assert(v@.take(0) =~= Seq::<char>::empty());
    while i < v.len()
        invariant
            i <= v@.len(),
            out@ == html_escape_text(v@.take(i as int)),
        decreases v.len() - i,
    {
        let c = v[i];
        if c == '<' {
            push_str(&mut out, "&lt;");
        } else if c == '>' {
            push_str(&mut out, "&gt;");
        } else if c == '&' {
            push_str(&mut out, "&amp;");
        } else if c == '"' {
            push_str(&mut out, "&quot;");
        } else if c == '\'' {
            push_str(&mut out, "&#39;");
        } else {
            push_char(&mut out, c);
        }
        assert(v@.take(i + 1).drop_last() == v@.take(i as int));
        assert(v@.take(i + 1).last() == c);
        i += 1;
    }
    assert(v@.take(v@.len() as int) == v@);
    out
}

proof fn lemma_escape_char_safe(c: char)
    ensures
        forall|i: int|
            0 <= i < escape_char(c).len() ==> {
                let e = #[trigger] escape_char(c)[i];
                e != '<' && e != '>' && e != '"' && e != '\''
            },
{
    reveal_strlit("&lt;");
    reveal_strlit("&gt;");
    reveal_strlit("&amp;");
    reveal_strlit("&quot;");
    reveal_strlit("&#39;");
}

/// Escaped text holds no `<`, `>`, `"` or `'`, so a member's name cannot break out of the
/// mention markup.
pub proof fn lemma_escaped_text_is_inert(s: Seq<char>)
    ensures
        forall|i: int|
            0 <= i < html_escape_text(s).len() ==> {
                let e = #[trigger] html_escape_text(s)[i];
                e != '<' && e != '>' && e != '"' && e != '\''
            },
    decreases s.len(),
{
    if s.len() > 0 {
        lemma_escaped_text_is_inert(s.drop_last());
        lemma_escape_char_safe(s.last());
        let a = html_escape_text(s.drop_last());
        let b = escape_char(s.last());
        assert forall|i: int| 0 <= i < html_escape_text(s).len() implies {
            let e = #[trigger] html_escape_text(s)[i];
            e != '<' && e != '>' && e != '"' && e != '\''
        } by {
            if i < a.len() {
                assert(html_escape_text(s)[i] == a[i]);
            } else {
                assert(html_escape_text(s)[i] == b[i - a.len()]);
            }
        }
    }
}

/// The HTML mention of a member: a `tg://user` link labelled with the escaped name.
pub open spec fn mention_text(user_id: int, first_name: Seq<char>) -> Seq<char> {
    "<a href=\"tg://user?id="@ + int_decimal(user_id) + "\">"@ + html_escape_text(first_name)
        + "</a>"@
}

pub fn mention(user_id: i64, first_name: &str) -> (s: String)
    ensures
        s@ == mention_text(user_id as int, first_name@),
{
    let mut s = String::new();
    push_str(&mut s, "<a href=\"tg://user?id=");
    push_i64(&mut s, user_id);
    push_str(&mut s, "\">");
    let name = html_escape(first_name);
    push_str(&mut s, name.as_str());
    push_str(&mut s, "</a>");
    s
}

/// The final text of a verification message: the template with `{user}` replaced by the
/// mention of the member.
pub fn group_verification_text(text_template: &str, user_id: i64, user_first_name: &str) -> (s:
    String)
    ensures
        s@ == fill_text(
            text_template@,
            seq![("user"@, mention_text(user_id as int, user_first_name@))],
        ),
{
    let m = mention(user_id, user_first_name);
    let pairs = [("user", m.as_str())];
    let s = fill(text_template, &pairs);
    assert(pairs_view(pairs@) =~= seq![("user"@, m@)]);
    s
}

} // verus!
