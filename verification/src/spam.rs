//! Spam screening of newly verified members: which messages are checked, what text is
//! scored, and what a score leads to.
use vstd::prelude::*;

use crate::chars::trim;
use crate::group::{or_default, AiConfig, DEFAULT_SPAM_CHECK_MESSAGE_LIMIT, DEFAULT_SPAM_CHECK_WINDOW_HOURS};

verus! {

/// What was done about a spam message, as recorded.
#[derive(Debug, Clone, Copy, PartialEq, Eq, Structural)]
pub enum SpamAction {
    Deleted,
    Kicked,
}

impl SpamAction {
    /// The stored name of the action.
    pub fn as_str(self) -> (s: &'static str)
        ensures
            s@ == (match self {
                SpamAction::Deleted => "deleted"@,
                SpamAction::Kicked => "kicked"@,
            }),
    {
        match self {
            SpamAction::Deleted => "deleted",
            SpamAction::Kicked => "kicked",
        }
    }
}

/// The text of a message that is scored: its text, or else its caption, trimmed; a blank
/// one is not scored.
pub open spec fn scored_text(text: Option<Seq<char>>, caption: Option<Seq<char>>) -> Option<Seq<char>> {
    let t = match text {
        Some(x) => Some(x),
        None => caption,
    };
    match t {
        Some(x) => if trim(x).len() > 0 {
            Some(trim(x))
        } else {
            None
        },
        None => None,
    }
}

pub open spec fn opt_seq(o: Option<&str>) -> Option<Seq<char>> {
    match o {
        Some(x) => Some(x@),
        None => None,
    }
}

/// The text to score of a message with the given text and caption.
pub fn message_text(text: Option<&str>, caption: Option<&str>) -> (r: Option<String>)
    ensures
        opt_string_view(r) == scored_text(opt_seq(text), opt_seq(caption)),
{
    let t = match text {
        Some(x) => Some(x),
        None => caption,
    };
    match t {
        Some(x) => {
            let s = crate::chars::trim_str(x);
            if s.as_str().is_empty() {
                None
            } else {
                Some(s)
            }
        },
        None => None,
    }
}

pub open spec fn opt_string_view(o: Option<String>) -> Option<Seq<char>> {
    match o {
        Some(x) => Some(x@),
        None => None,
    }
}

/// Seconds in an hour.
pub const SECONDS_PER_HOUR: i64 = 3600;

/// Whether a verified member's message is still screened: while fewer messages than the
/// limit were counted, or while the window after verification (or after the session was
/// created, if no verification time is stored) has not passed.
pub open spec fn screening_due(
    message_counts: int,
    verified_at: Option<i64>,
    created_at: int,
    limit: int,
    window_hours: int,
    now: int,
) -> bool {
    let since = match verified_at {
        Some(v) => v as int,
        None => created_at,
    };
    let elapsed = if now - since < i64::MIN {
        i64::MIN as int
    } else if now - since > i64::MAX {
        i64::MAX as int
    } else {
        now - since
    };
    message_counts < limit || elapsed <= window_hours * SECONDS_PER_HOUR
}

/// Whether the configured window, in seconds, fits in an `i64`.
pub open spec fn window_fits(cfg: AiConfig) -> bool {
    i64::MIN <= or_default(cfg.spam_check_window_hours, DEFAULT_SPAM_CHECK_WINDOW_HOURS)
        * SECONDS_PER_HOUR <= i64::MAX
}

/// Screening covers the member's first `limit` messages whatever the time, and any message
/// sent within `window_hours` hours of verification (or of the session's creation when no
/// verification time is stored); a message past both is not screened.
pub proof fn lemma_screening_window(
    message_counts: int,
    verified_at: Option<i64>,
    created_at: int,
    limit: int,
    window_hours: int,
    now: int,
)
    requires
        i64::MIN <= now - created_at <= i64::MAX,
        verified_at matches Some(v) ==> i64::MIN <= now - v <= i64::MAX,
    ensures
        message_counts < limit ==> screening_due(
            message_counts,
            verified_at,
            created_at,
            limit,
            window_hours,
            now,
        ),
        screening_due(message_counts, verified_at, created_at, limit, window_hours, now) <==> (
        message_counts < limit || now - (match verified_at {
            Some(v) => v as int,
            None => created_at,
        }) <= window_hours * SECONDS_PER_HOUR),
{
}

/// Decides whether a message of a verified member is screened.
pub fn screening_is_due(
    message_counts: i64,
    verified_at: Option<i64>,
    created_at: i64,
    cfg: &AiConfig,
    now: i64,
) -> (b: bool)
    requires
        window_fits(*cfg),
    ensures
        b == screening_due(
            message_counts as int,
            verified_at,
            created_at as int,
            or_default(cfg.spam_check_message_limit, DEFAULT_SPAM_CHECK_MESSAGE_LIMIT) as int,
            or_default(cfg.spam_check_window_hours, DEFAULT_SPAM_CHECK_WINDOW_HOURS) as int,
            now as int,
        ),
        message_counts < or_default(cfg.spam_check_message_limit, DEFAULT_SPAM_CHECK_MESSAGE_LIMIT)
            ==> b,
        b <==> (message_counts < or_default(
            cfg.spam_check_message_limit,
            DEFAULT_SPAM_CHECK_MESSAGE_LIMIT,
        ) || ((now as int) - (match verified_at {
            Some(v) => v as int,
            None => created_at as int,
        }) <= or_default(cfg.spam_check_window_hours, DEFAULT_SPAM_CHECK_WINDOW_HOURS)
            * SECONDS_PER_HOUR)),
{
    let within_message_limit = message_counts < cfg.spam_check_message_limit();
    let since = match verified_at {
        Some(v) => v,
        None => created_at,
    };
    let window_secs = cfg.spam_check_window_hours() * SECONDS_PER_HOUR;
    let diff: i128 = now as i128 - since as i128;
    let elapsed: i64 = if diff < i64::MIN as i128 {
        i64::MIN
    } else if diff > i64::MAX as i128 {
        i64::MAX
    } else {
        diff as i64
    };
    within_message_limit || elapsed <= window_secs
}

/// What a verified member's message is checked with: nothing unless it is due for
/// screening and the chat's AI configuration is complete; then its text to score, if it
/// has one.
pub open spec fn spam_check_text_spec(
    due: bool,
    ready: bool,
    text: Option<Seq<char>>,
    caption: Option<Seq<char>>,
) -> Option<Seq<char>> {
    if due && ready {
        scored_text(text, caption)
    } else {
        None
    }
}

/// Decides whether a verified member's message goes to the AI check, and with which text.
/// `due` is the screening decision taken before the message was counted, `ready` whether
/// provider, API URL, API key and model are all set.
pub fn spam_check_text(due: bool, ready: bool, text: Option<&str>, caption: Option<&str>) -> (r:
    Option<String>)
    ensures
        opt_string_view(r) == spam_check_text_spec(due, ready, opt_seq(text), opt_seq(caption)),
{
    if !due || !ready {
        return None;
    }
    message_text(text, caption)
}

/// The step after a message was scored.
#[derive(Debug, Clone, Copy, PartialEq, Eq, Structural)]
pub enum SpamStep {
    /// Let the message stand.
    Allow,
    /// Delete the message and record the deletion.
    Delete,
    /// After deleting, count one more spam message of the member and compare with the
    /// kick threshold.
    CountSpam,
    /// Kick the member and record the kick.
    Kick,
}

/// What a score leads to first: a message scoring at least the delete score is deleted.
pub fn after_score(score: i64, delete_score: i64) -> (s: SpamStep)
    ensures
        s == after_score_spec(score, delete_score),
        s == SpamStep::Delete <==> score >= delete_score,
        s == SpamStep::Delete || s == SpamStep::Allow,
{
    if score >= delete_score {
        SpamStep::Delete
    } else {
        SpamStep::Allow
    }
}

/// What follows a deletion: a score of at least the kick score kicks at once, without
/// counting; otherwise the member's spam count is raised first.
pub fn after_delete(score: i64, kick_score: i64) -> (s: SpamStep)
    ensures
        s == after_delete_spec(score, kick_score),
        s == SpamStep::Kick <==> score >= kick_score,
        s == SpamStep::Kick || s == SpamStep::CountSpam,
{
    if score >= kick_score {
        SpamStep::Kick
    } else {
        SpamStep::CountSpam
    }
}

/// The spam count after counting: the new count, or 0 when the member has no verified
/// session any more or the count could not be stored.
pub fn counted_spam(result: Option<i64>) -> (n: i64)
    ensures
        n == (match result {
            Some(c) => c,
            None => 0,
        }),
{
    match result {
        Some(c) => c,
        None => 0,
    }
}

/// What follows counting: the member is kicked once the count reaches the threshold.
pub fn after_count(count: i64, kick_threshold: i64) -> (s: SpamStep)
    ensures
        s == after_count_spec(count, kick_threshold),
        s == SpamStep::Kick <==> count >= kick_threshold,
        s == SpamStep::Kick || s == SpamStep::Allow,
{
    if count >= kick_threshold {
        SpamStep::Kick
    } else {
        SpamStep::Allow
    }
}

pub open spec fn after_score_spec(score: i64, delete_score: i64) -> SpamStep {
    if score >= delete_score {
        SpamStep::Delete
    } else {
        SpamStep::Allow
    }
}

pub open spec fn after_delete_spec(score: i64, kick_score: i64) -> SpamStep {
    if score >= kick_score {
        SpamStep::Kick
    } else {
        SpamStep::CountSpam
    }
}

pub open spec fn after_count_spec(count: i64, kick_threshold: i64) -> SpamStep {
    if count >= kick_threshold {
        SpamStep::Kick
    } else {
        SpamStep::Allow
    }
}

/// Each step compares with the threshold the chat configured, and with nothing else: a
/// message is deleted exactly when its score reaches the delete score, the sender is kicked
/// at once exactly when it reaches the kick score, and after counting exactly when the
/// count reaches the kick threshold.
pub proof fn lemma_steps_follow_thresholds(score: i64, count: i64, delete_score: i64, kick_score: i64, threshold: i64)
    ensures
        after_score_spec(score, delete_score) == SpamStep::Delete <==> score >= delete_score,
        after_score_spec(score, delete_score) != SpamStep::Delete ==> after_score_spec(
            score,
            delete_score,
        ) == SpamStep::Allow,
        after_delete_spec(score, kick_score) == SpamStep::Kick <==> score >= kick_score,
        after_delete_spec(score, kick_score) != SpamStep::Kick ==> after_delete_spec(
            score,
            kick_score,
        ) == SpamStep::CountSpam,
        after_count_spec(count, threshold) == SpamStep::Kick <==> count >= threshold,
        after_count_spec(count, threshold) != SpamStep::Kick ==> after_count_spec(count, threshold)
            == SpamStep::Allow,
{
}

/// Whether a scored message ends with its sender kicked, following the steps: deleted
/// first, then kicked for the score or, once counted, for the count.
pub open spec fn ends_in_kick(score: i64, delete_score: i64, kick_score: i64, count: i64, threshold: i64) -> bool {
    after_score_spec(score, delete_score) == SpamStep::Delete && (after_delete_spec(score, kick_score)
        == SpamStep::Kick || after_count_spec(count, threshold) == SpamStep::Kick)
}

/// A member is kicked for a message only if that message was deleted; a message below the
/// delete score is left alone whatever the other settings.
pub proof fn lemma_kick_needs_delete(score: i64, delete_score: i64, kick_score: i64, count: i64, threshold: i64)
    ensures
        ends_in_kick(score, delete_score, kick_score, count, threshold) ==> after_score_spec(
            score,
            delete_score,
        ) == SpamStep::Delete,
        score < delete_score ==> after_score_spec(score, delete_score) == SpamStep::Allow
            && !ends_in_kick(score, delete_score, kick_score, count, threshold),
        score >= delete_score && score >= kick_score ==> ends_in_kick(
            score,
            delete_score,
            kick_score,
            count,
            threshold,
        ),
{
}

} // verus!
