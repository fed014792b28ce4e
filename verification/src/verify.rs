//! The join-verification flow: deep links into the private chat, the `/start` payload
//! they produce, and the decisions taken when a member joins, asks to join, opens the
//! private chat, or lets the deadline pass.
use rand::RngCore;
use vstd::prelude::*;

use crate::group::Group;
use crate::session::Session;
use crate::text::{
    fill, fill_text, pairs_view, DEFAULT_BUTTON_LABEL, DEFAULT_DM_VERIFICATION_TEXT,
    DEFAULT_GROUP_VERIFICATION_TEXT,
};
use crate::chars::{
    chars_of, find_char, find_in_range, has_prefix, int_decimal, is_whitespace, is_ws,
    lemma_find_char, lemma_parse_int_decimal, parse_i64_range, parse_i64_spec, push_i64, push_str,
    range_eq, trim, trim_end, trim_range, trim_start,
};

verus! {

/// What a `/start` message in the private chat asks for.
#[derive(Debug, Clone, Copy, PartialEq, Eq)]
pub enum StartPayload {
    /// Verification for joining the chat with this id.
    Verify(i64),
    /// The AI settings menu of the chat with this id.
    Settings(i64),
}

/// Index of the first whitespace character of `s`, if any.
pub open spec fn find_ws(s: Seq<char>) -> Option<int>
    decreases s.len(),
{
    if s.len() == 0 {
        None
    } else if is_ws(s[0]) {
        Some(0)
    } else {
        match find_ws(s.drop_first()) {
            Some(i) => Some(i + 1),
            None => None,
        }
    }
}

pub proof fn lemma_find_ws(s: Seq<char>)
    ensures
        match find_ws(s) {
            Some(i) => 0 <= i < s.len() && is_ws(s[i]) && forall|j: int| 0 <= j < i ==> !is_ws(s[j]),
            None => forall|j: int| 0 <= j < s.len() ==> !is_ws(s[j]),
        },
    decreases s.len(),
{
    if s.len() > 0 && !is_ws(s[0]) {
        lemma_find_ws(s.drop_first());
        assert forall|j: int| 1 <= j < s.len() implies s[j] == s.drop_first()[j - 1] by {}
    }
}

pub proof fn lemma_find_ws_unique(s: Seq<char>, i: int)
    requires
        0 <= i < s.len(),
        is_ws(s[i]),
        forall|j: int| 0 <= j < i ==> !is_ws(s[j]),
    ensures
        find_ws(s) == Some(i),
{
    lemma_find_ws(s);
}

fn find_ws_range(v: &Vec<char>, lo: usize, hi: usize) -> (r: Option<usize>)
    requires
        lo <= hi <= v@.len(),
    ensures
        r == (match find_ws(v@.subrange(lo as int, hi as int)) {
            Some(i) => Some(i as usize),
            None => None::<usize>,
        }),
{
    let ghost s = v@.subrange(lo as int, hi as int);
    let mut i = lo;
    while i < hi
        invariant
            lo <= i <= hi <= v@.len(),
            s == v@.subrange(lo as int, hi as int),
            forall|j: int| 0 <= j < i - lo ==> !is_ws(s[j]),
        decreases hi - i,
    {
        if is_whitespace(v[i]) {
            proof {
                lemma_find_ws_unique(s, i - lo);
            }
            return Some(i - lo);
        }
        i += 1;
    }
    proof {
        lemma_find_ws(s);
        if find_ws(s) is Some {
            let k = find_ws(s)->0;
            assert(!is_ws(s[k]));
        }
    }
    None
}

/// The command word of `/start` messages.
pub open spec fn start_command() -> Seq<char> {
    "/start"@
}

/// The prefix of a settings payload.
pub open spec fn settings_prefix() -> Seq<char> {
    "settings_"@
}

/// What the private-chat message `text` asks for: after trimming, its first
/// whitespace-separated word must be `/start`, optionally with an `@bot` suffix, and the
/// trimmed remainder is either `settings_<chat id>` or `<chat id>`.
pub open spec fn start_payload_spec(text: Seq<char>) -> Option<StartPayload> {
    let t = trim(text);
    match find_ws(t) {
        None => None,
        Some(w) => {
            let head0 = t.take(w);
            let head = match find_char(head0, '@') {
                Some(a) => head0.take(a),
                None => head0,
            };
            if head != start_command() {
                None
            } else {
                let rest = trim(t.skip(w + 1));
                if has_prefix(rest, settings_prefix()) {
                    match parse_i64_spec(rest.skip(settings_prefix().len() as int)) {
                        Some(n) => Some(StartPayload::Settings(n)),
                        None => None,
                    }
                } else {
                    match parse_i64_spec(rest) {
                        Some(n) => Some(StartPayload::Verify(n)),
                        None => None,
                    }
                }
            }
        },
    }
}

/// Reads the payload of a `/start` message sent in the private chat.
pub fn parse_start_payload(text: &str) -> (r: Option<StartPayload>)
    ensures
        r == start_payload_spec(text@),
{
    let v = chars_of(text);
    let n = v.len();
    assert(v@.subrange(0, n as int) == v@);
    let (a, b) = trim_range(&v, 0, n);
    let ghost t = v@.subrange(a as int, b as int);
    let w = match find_ws_range(&v, a, b) {
        None => {
            return None;
        },
        Some(w) => w,
    };
    proof {
        lemma_find_ws(t);
    }
    let hw = a + w;
    let ghost head0 = t.take(w as int);
    assert(head0 == v@.subrange(a as int, hw as int));
    let head_end = match find_in_range(&v, a, hw, '@') {
        Some(at) => {
            proof {
                lemma_find_char(head0, '@');
            }
            assert(head0.take(at as int) == v@.subrange(a as int, a + at));
            a + at
        },
        None => hw,
    };
    let start = chars_of("/start");
    if !range_eq(&v, a, head_end, &start) {
        return None;
    }
    assert(t.skip(w + 1) == v@.subrange(hw + 1, b as int));
    let (ra, rb) = trim_range(&v, hw + 1, b);
    let ghost rest = v@.subrange(ra as int, rb as int);
    let prefix = chars_of("settings_");
    let plen = prefix.len();
    if rb - ra >= plen && range_eq(&v, ra, ra + plen, &prefix) {
        assert(rest.subrange(0, plen as int) == v@.subrange(ra as int, ra + plen));
        assert(rest.skip(plen as int) == v@.subrange(ra + plen, rb as int));
        match parse_i64_range(&v, ra + plen, rb) {
            Some(id) => Some(StartPayload::Settings(id)),
            None => None,
        }
    } else {
        proof {
            if has_prefix(rest, settings_prefix()) {
                assert(rest.subrange(0, plen as int) == v@.subrange(ra as int, ra + plen));
            }
        }
        match parse_i64_range(&v, ra, rb) {
            Some(id) => Some(StartPayload::Verify(id)),
            None => None,
        }
    }
}

/// The deep link that opens the private chat with the bot for verifying in `chat_id`.
pub open spec fn verify_deep_link_text(bot_username: Seq<char>, chat_id: int) -> Seq<char> {
    "https://t.me/"@ + bot_username + "?start="@ + int_decimal(chat_id)
}

/// The deep link that opens the AI settings of `chat_id` in the private chat.
pub open spec fn settings_deep_link_text(bot_username: Seq<char>, chat_id: int) -> Seq<char> {
    "https://t.me/"@ + bot_username + "?start=settings_"@ + int_decimal(chat_id)
}

/// Builds the verification deep link for `chat_id`.
pub fn verify_deep_link(bot_username: &str, chat_id: i64) -> (s: String)
    ensures
        s@ == verify_deep_link_text(bot_username@, chat_id as int),
{
    let mut s = String::new();
    push_str(&mut s, "https://t.me/");
    push_str(&mut s, bot_username);
    push_str(&mut s, "?start=");
    push_i64(&mut s, chat_id);
    s
}

/// Builds the settings deep link for `chat_id`.
pub fn settings_deep_link(bot_username: &str, chat_id: i64) -> (s: String)
    ensures
        s@ == settings_deep_link_text(bot_username@, chat_id as int),
{
    let mut s = String::new();
    push_str(&mut s, "https://t.me/");
    push_str(&mut s, bot_username);
    push_str(&mut s, "?start=settings_");
    push_i64(&mut s, chat_id);
    s
}

proof fn lemma_trim_plain(s: Seq<char>)
    requires
        s.len() > 0,
        !is_ws(s[0]),
        !is_ws(s.last()),
    ensures
        trim(s) == s,
{
}

proof fn lemma_decimal_no_ws(n: int)
    ensures
        int_decimal(n).len() > 0,
        forall|i: int| 0 <= i < int_decimal(n).len() ==> !is_ws(#[trigger] int_decimal(n)[i]),
{
    crate::chars::lemma_int_decimal_chars(n);
    if n < 0 {
        crate::chars::lemma_nat_decimal_digits((-n) as nat);
    } else {
        crate::chars::lemma_nat_decimal_digits(n as nat);
    }
}

/// Opening the verification deep link of a chat sends `/start <chat id>`, which reads
/// back as verification for that chat.
pub proof fn lemma_verify_link_payload(chat_id: i64)
    ensures
        start_payload_spec("/start "@ + int_decimal(chat_id as int)) == Some(
            StartPayload::Verify(chat_id),
        ),
{
    reveal_strlit("/start ");
    reveal_strlit("/start");
    reveal_strlit("settings_");
    let d = int_decimal(chat_id as int);
    let text = "/start "@ + d;
    lemma_decimal_no_ws(chat_id as int);
    assert(text[0] == '/');
    assert(text.last() == d.last());
    lemma_trim_plain(text);
    lemma_find_ws_unique(text, 6);
    assert(text.take(6) =~= "/start"@);
    crate::chars::lemma_find_char_none(text.take(6), '@');
    assert(text.skip(7) =~= d);
    lemma_trim_plain(d);
    crate::chars::lemma_int_decimal_chars(chat_id as int);
    assert(crate::chars::is_digit(d[0]) || d[0] == '-');
    assert(!has_prefix(d, settings_prefix())) by {
        if has_prefix(d, settings_prefix()) {
            assert(settings_prefix()[0] == 's');
            assert(d.subrange(0, 9)[0] == d[0]);
        }
    }
    lemma_parse_int_decimal(chat_id);
}

/// Opening the settings deep link of a chat sends `/start settings_<chat id>`, which
/// reads back as the settings of that chat.
pub proof fn lemma_settings_link_payload(chat_id: i64)
    ensures
        start_payload_spec("/start settings_"@ + int_decimal(chat_id as int)) == Some(
            StartPayload::Settings(chat_id),
        ),
{
    reveal_strlit("/start ");
    reveal_strlit("/start");
    reveal_strlit("settings_");
    reveal_strlit("/start settings_");
    let d = int_decimal(chat_id as int);
    let rest = "settings_"@ + d;
    let text = "/start "@ + rest;
    assert("/start settings_"@ + d =~= text);
    lemma_decimal_no_ws(chat_id as int);
    assert(text[0] == '/');
    assert(text.last() == d.last());
    lemma_trim_plain(text);
    lemma_find_ws_unique(text, 6);
    assert(text.take(6) =~= "/start"@);
    crate::chars::lemma_find_char_none(text.take(6), '@');
    assert(text.skip(7) =~= rest);
    assert(rest.last() == d.last());
    lemma_trim_plain(rest);
    assert(rest.subrange(0, 9) =~= settings_prefix());
    assert(rest.skip(9) =~= d);
    lemma_parse_int_decimal(chat_id);
}

// ---------------------------------------------------------------------------
// A member joins
// ---------------------------------------------------------------------------

/// Where the handling of a joined member stands.
#[derive(Debug, Clone, Copy, PartialEq, Eq, Structural)]
pub enum JoinStage {
    /// Read the group's settings; go on only if the group is known and enabled.
    LoadGroup,
    /// Look for a session still waiting for this member; go on only if there is none.
    CheckActive,
    /// Mute the member; go on only if that worked.
    Restrict,
    /// Post the verification message in the group.
    Send,
    /// Sending failed: remove the member again.
    Kick,
    /// Kicking failed too: lift the mute, so the member is not left muted without a session.
    Unrestrict,
    /// Store the new pending session.
    Create,
    Done,
}

/// The stage a join starts in: a join of the bot itself is ignored.
pub open spec fn join_start_spec(user_id: u64, bot_user_id: u64) -> JoinStage {
    if user_id == bot_user_id {
        JoinStage::Done
    } else {
        JoinStage::LoadGroup
    }
}

/// The next stage after `stage` ended with `ok` (the group is known and enabled; a
/// session was found; the request succeeded).
pub open spec fn join_next_spec(stage: JoinStage, ok: bool) -> JoinStage {
    match stage {
        JoinStage::LoadGroup => if ok {
            JoinStage::CheckActive
        } else {
            JoinStage::Done
        },
        JoinStage::CheckActive => if ok {
            JoinStage::Done
        } else {
            JoinStage::Restrict
        },
        JoinStage::Restrict => if ok {
            JoinStage::Send
        } else {
            JoinStage::Done
        },
        JoinStage::Send => if ok {
            JoinStage::Create
        } else {
            JoinStage::Kick
        },
        JoinStage::Kick => if ok {
            JoinStage::Done
        } else {
            JoinStage::Unrestrict
        },
        JoinStage::Unrestrict => JoinStage::Done,
        JoinStage::Create => JoinStage::Done,
        JoinStage::Done => JoinStage::Done,
    }
}

/// Only the bot's own join is skipped: every other member, whatever their id, starts the
/// verification by loading the group's settings.
pub proof fn lemma_only_the_bot_is_skipped(user_id: u64, bot_user_id: u64)
    ensures
        join_start_spec(user_id, bot_user_id) == JoinStage::Done <==> user_id == bot_user_id,
        user_id != bot_user_id ==> join_start_spec(user_id, bot_user_id) == JoinStage::LoadGroup,
{
}

pub fn join_start(user_id: u64, bot_user_id: u64) -> (s: JoinStage)
    ensures
        s == join_start_spec(user_id, bot_user_id),
        user_id != bot_user_id ==> s == JoinStage::LoadGroup,
        user_id == bot_user_id ==> s == JoinStage::Done,
{
    if user_id == bot_user_id {
        JoinStage::Done
    } else {
        JoinStage::LoadGroup
    }
}

pub fn join_next(stage: JoinStage, ok: bool) -> (s: JoinStage)
    ensures
        s == join_next_spec(stage, ok),
{
    match stage {
        JoinStage::LoadGroup => if ok {
            JoinStage::CheckActive
        } else {
            JoinStage::Done
        },
        JoinStage::CheckActive => if ok {
            JoinStage::Done
        } else {
            JoinStage::Restrict
        },
        JoinStage::Restrict => if ok {
            JoinStage::Send
        } else {
            JoinStage::Done
        },
        JoinStage::Send => if ok {
            JoinStage::Create
        } else {
            JoinStage::Kick
        },
        JoinStage::Kick => if ok {
            JoinStage::Done
        } else {
            JoinStage::Unrestrict
        },
        JoinStage::Unrestrict => JoinStage::Done,
        JoinStage::Create => JoinStage::Done,
        JoinStage::Done => JoinStage::Done,
    }
}

/// Whether a loaded group lets the join go on: it must be known and enabled.
pub fn group_wants_verification(group: Option<&Group>) -> (b: bool)
    ensures
        b == (group matches Some(g) && g.enabled),
{
    match group {
        Some(g) => g.enabled,
        None => false,
    }
}

/// A session is stored only after the verification message was posted, and the message is
/// posted only after the member was muted.
pub proof fn lemma_join_session_needs_message(stage: JoinStage, ok: bool)
    ensures
        join_next_spec(stage, ok) == JoinStage::Create ==> stage == JoinStage::Send && ok,
        join_next_spec(stage, ok) == JoinStage::Send ==> stage == JoinStage::Restrict && ok,
{
}

/// After the member was muted, the handling ends only with a stored session, a kick, or an
/// attempt to lift the mute.
pub proof fn lemma_join_muted_member_not_abandoned(stage: JoinStage, ok: bool)
    requires
        stage == JoinStage::Send || stage == JoinStage::Kick,
    ensures
        join_next_spec(stage, ok) != JoinStage::Done || (stage == JoinStage::Kick && ok),
{
}

/// A member of an enabled group without a waiting session, who could be muted and shown
/// the verification message, gets a stored session: the stages run load, check, mute,
/// send, store, in that order, and end there. A group that is unknown or disabled, or a
/// session already waiting, ends the handling before anyone is muted.
pub proof fn lemma_join_happy_path()
    ensures
        join_next_spec(JoinStage::LoadGroup, true) == JoinStage::CheckActive,
        join_next_spec(JoinStage::CheckActive, false) == JoinStage::Restrict,
        join_next_spec(JoinStage::Restrict, true) == JoinStage::Send,
        join_next_spec(JoinStage::Send, true) == JoinStage::Create,
        join_next_spec(JoinStage::Create, true) == JoinStage::Done,
        join_next_spec(JoinStage::LoadGroup, false) == JoinStage::Done,
        join_next_spec(JoinStage::CheckActive, true) == JoinStage::Done,
{
}

/// The group message asking a member to verify.
pub struct VerificationMessage {
    /// The message template with `{chat}` and `{timeout}` filled; `{user}` is left for the
    /// mention of the member.
    pub text: String,
    pub button_label: String,
    /// The deep link of the button.
    pub verify_url: String,
}

/// Whole minutes in `secs` seconds, rounded toward zero as integer division does.
pub open spec fn minutes_of(secs: int) -> int {
    if secs >= 0 {
        secs / 60
    } else {
        -((-secs) / 60)
    }
}

pub fn whole_minutes(secs: i64) -> (m: i64)
    ensures
        m == minutes_of(secs as int),
{
    if secs >= 0 {
        secs / 60
    } else {
        let p: i128 = -(secs as i128);
        let q: i128 = p / 60;
        (-q) as i64
    }
}

/// The verification message of a group: its own welcome text or the default, with the
/// chat title and the timeout in whole minutes; its own button label or the default; and
/// the deep link into the private chat.
pub fn verification_message(group: &Group, chat_title: &str, bot_username: &str) -> (m:
    VerificationMessage)
    ensures
        m.text@ == fill_text(
            match group.welcome_text {
                Some(t) => t@,
                None => DEFAULT_GROUP_VERIFICATION_TEXT@,
            },
            seq![
                ("chat"@, chat_title@),
                ("timeout"@, int_decimal(minutes_of(group.timeout_seconds as int))),
            ],
        ),
        m.button_label@ == (match group.button_label {
            Some(b) => b@,
            None => DEFAULT_BUTTON_LABEL@,
        }),
        m.verify_url@ == verify_deep_link_text(bot_username@, group.chat_id as int),
{
    let template: &str = match &group.welcome_text {
        Some(t) => t.as_str(),
        None => DEFAULT_GROUP_VERIFICATION_TEXT,
    };
    let button_label = match &group.button_label {
        Some(b) => b.clone(),
        None => DEFAULT_BUTTON_LABEL.to_owned(),
    };
    let minutes = crate::chars::i64_to_string(whole_minutes(group.timeout_seconds));
    let pairs = [("chat", chat_title), ("timeout", minutes.as_str())];
    let text = fill(template, &pairs);
    assert(pairs_view(pairs@) =~= seq![
        ("chat"@, chat_title@),
        ("timeout"@, int_decimal(minutes_of(group.timeout_seconds as int))),
    ]);
    let verify_url = verify_deep_link(bot_username, group.chat_id);
    VerificationMessage { text, button_label, verify_url }
}

/// The deadline of a session started at `now` in a group with the given timeout.
pub fn session_deadline(now: i64, timeout_seconds: i64) -> (t: i64)
    requires
        i64::MIN <= now + timeout_seconds <= i64::MAX,
    ensures
        t == now + timeout_seconds,
{
    now + timeout_seconds
}

// ---------------------------------------------------------------------------
// A member asks to join
// ---------------------------------------------------------------------------

/// Where the handling of a join request stands.
#[derive(Debug, Clone, Copy, PartialEq, Eq, Structural)]
pub enum JoinRequestStage {
    /// Read the group's settings; go on only if it is known and enabled.
    LoadGroup,
    /// Mute the member before letting them in; go on only if that worked.
    Restrict,
    /// Approve the request.
    Approve,
    Done,
}

pub open spec fn join_request_next_spec(stage: JoinRequestStage, ok: bool) -> JoinRequestStage {
    match stage {
        JoinRequestStage::LoadGroup => if ok {
            JoinRequestStage::Restrict
        } else {
            JoinRequestStage::Done
        },
        JoinRequestStage::Restrict => if ok {
            JoinRequestStage::Approve
        } else {
            JoinRequestStage::Done
        },
        _ => JoinRequestStage::Done,
    }
}

/// The stage a join request starts in: a request of the bot itself is ignored.
pub fn join_request_start(user_id: u64, bot_user_id: u64) -> (s: JoinRequestStage)
    ensures
        s == (if user_id == bot_user_id {
            JoinRequestStage::Done
        } else {
            JoinRequestStage::LoadGroup
        }),
{
    if user_id == bot_user_id {
        JoinRequestStage::Done
    } else {
        JoinRequestStage::LoadGroup
    }
}

pub fn join_request_next(stage: JoinRequestStage, ok: bool) -> (s: JoinRequestStage)
    ensures
        s == join_request_next_spec(stage, ok),
{
    match stage {
        JoinRequestStage::LoadGroup => if ok {
            JoinRequestStage::Restrict
        } else {
            JoinRequestStage::Done
        },
        JoinRequestStage::Restrict => if ok {
            JoinRequestStage::Approve
        } else {
            JoinRequestStage::Done
        },
        _ => JoinRequestStage::Done,
    }
}

/// A request to join an enabled group is approved after the member was muted; a request
/// to an unknown or disabled group, or one whose mute failed, ends without approval.
pub proof fn lemma_join_request_path()
    ensures
        join_request_next_spec(JoinRequestStage::LoadGroup, true) == JoinRequestStage::Restrict,
        join_request_next_spec(JoinRequestStage::Restrict, true) == JoinRequestStage::Approve,
        join_request_next_spec(JoinRequestStage::LoadGroup, false) == JoinRequestStage::Done,
        join_request_next_spec(JoinRequestStage::Restrict, false) == JoinRequestStage::Done,
        forall|ok: bool| join_request_next_spec(JoinRequestStage::Approve, ok) == JoinRequestStage::Done,
{
}

/// A request is approved only right after the member was muted successfully, so nobody
/// enters an enabled group unmuted.
pub proof fn lemma_approve_only_after_restrict(stage: JoinRequestStage, ok: bool)
    ensures
        join_request_next_spec(stage, ok) == JoinRequestStage::Approve ==> stage
            == JoinRequestStage::Restrict && ok,
{
}

// ---------------------------------------------------------------------------
// The member opens the private chat
// ---------------------------------------------------------------------------

/// What the bot does when a member sends `/start <chat id>`.
#[derive(Debug, Clone, PartialEq, Eq)]
pub enum VerifyStartStep {
    /// No session waits: tell the member so.
    NoPending,
    /// The session has a token: send the link with it.
    SendLink { token: String },
    /// The session has no token yet: store a fresh one, then send the link.
    PersistToken,
}

/// Decides on a member's `/start` from the session found (if any).
pub fn verify_start_step(session: Option<&Session>) -> (s: VerifyStartStep)
    ensures
        match session {
            None => s == VerifyStartStep::NoPending,
            Some(x) => match x.verify_token {
                Some(t) => s matches VerifyStartStep::SendLink { token } && token@ == t@,
                None => s == VerifyStartStep::PersistToken,
            },
        },
{
    match session {
        None => VerifyStartStep::NoPending,
        Some(x) => match &x.verify_token {
            Some(t) => VerifyStartStep::SendLink { token: t.clone() },
            None => VerifyStartStep::PersistToken,
        },
    }
}

/// `s` without its trailing `/` characters (`str::trim_end_matches('/')`).
pub open spec fn trim_trailing_slashes(s: Seq<char>) -> Seq<char>
    decreases s.len(),
{
    if s.len() > 0 && s.last() == '/' {
        trim_trailing_slashes(s.drop_last())
    } else {
        s
    }
}

/// The verification page of a session: `<public url>/app/<chat>/<user>/<token>`.
pub open spec fn verify_page_url_text(public_url: Seq<char>, chat_id: int, user_id: int, token: Seq<
    char,
>) -> Seq<char> {
    trim_trailing_slashes(public_url) + "/app/"@ + int_decimal(chat_id) + "/"@ + int_decimal(
        user_id,
    ) + "/"@ + token
}

/// Builds the verification page link of a session.
pub fn verify_page_url(public_url: &str, chat_id: i64, user_id: i64, token: &str) -> (s: String)
    ensures
        s@ == verify_page_url_text(public_url@, chat_id as int, user_id as int, token@),
{
    let v = chars_of(public_url);
    let mut end = v.len();
    assert(v@.subrange(0, end as int) == v@);
    while end > 0 && v[end - 1] == '/'
        invariant
            end <= v@.len(),
            trim_trailing_slashes(v@) == trim_trailing_slashes(v@.subrange(0, end as int)),
        decreases end,
    {
        assert(v@.subrange(0, end - 1) == v@.subrange(0, end as int).drop_last());
        end -= 1;
    }
    assert(v@.subrange(0, v@.len() as int) == v@);
    let mut s = String::new();
    push_range_into(&mut s, &v, end);
    push_str(&mut s, "/app/");
    push_i64(&mut s, chat_id);
    push_str(&mut s, "/");
    push_i64(&mut s, user_id);
    push_str(&mut s, "/");
    push_str(&mut s, token);
    s
}

fn push_range_into(s: &mut String, v: &Vec<char>, end: usize)
    requires
        end <= v@.len(),
    ensures
        final(s)@ == old(s)@ + v@.subrange(0, end as int),
{
    crate::chars::push_range(s, v, 0, end);
}

/// The private message that carries the verification link.
pub fn dm_verification_text(user_first_name: &str, chat_title: &str) -> (s: String)
    ensures
        s@ == fill_text(
            DEFAULT_DM_VERIFICATION_TEXT@,
            seq![("user"@, user_first_name@), ("chat"@, chat_title@)],
        ),
{
    let pairs = [("user", user_first_name), ("chat", chat_title)];
    let s = fill(DEFAULT_DM_VERIFICATION_TEXT, &pairs);
    assert(pairs_view(pairs@) =~= seq![("user"@, user_first_name@), ("chat"@, chat_title@)]);
    s
}

// ---------------------------------------------------------------------------
// Deadlines
// ---------------------------------------------------------------------------

/// How often due sessions are looked for, in seconds.
pub const EXPIRY_POLL_SECONDS: u64 = 60;

/// How many due sessions are handled per batch.
pub const EXPIRY_BATCH_LIMIT: u64 = 100;

/// What the deadline check does to a member whose session it expired.
#[derive(Debug, Clone, Copy, PartialEq, Eq)]
pub enum ExpiryAction {
    /// Remove the member from the chat.
    Kick { chat_id: i64, user_id: i64 },
    /// Delete the verification message.
    DeleteMessage { chat_id: i64, message_id: i64 },
}

/// The actions for a due session: nothing unless this check expired it (another handler
/// may have verified or expired it in between); otherwise kick the member and delete the
/// verification message if there is one.
pub fn expiry_actions(session: &Session, expired: bool) -> (a: Vec<ExpiryAction>)
    ensures
        !expired ==> a@.len() == 0,
        expired ==> a@ == seq![
            ExpiryAction::Kick { chat_id: session.chat_id, user_id: session.user_id },
        ] + match session.verify_msg_id {
            Some(m) => seq![ExpiryAction::DeleteMessage { chat_id: session.chat_id, message_id: m }],
            None => Seq::empty(),
        },
{
    let mut a: Vec<ExpiryAction> = Vec::new();
    if !expired {
        return a;
    }
    a.push(ExpiryAction::Kick { chat_id: session.chat_id, user_id: session.user_id });
    match session.verify_msg_id {
        Some(m) => {
            a.push(ExpiryAction::DeleteMessage { chat_id: session.chat_id, message_id: m });
        },
        None => {},
    }
    assert(a@ =~= seq![
        ExpiryAction::Kick { chat_id: session.chat_id, user_id: session.user_id },
    ] + match session.verify_msg_id {
        Some(m) => seq![ExpiryAction::DeleteMessage { chat_id: session.chat_id, message_id: m }],
        None => Seq::empty(),
    });
    a
}

/// Whether another batch of due sessions must be fetched: only after a full batch.
pub fn expiry_batch_continues(fetched: u64) -> (b: bool)
    ensures
        b == (fetched >= EXPIRY_BATCH_LIMIT),
{
    fetched >= EXPIRY_BATCH_LIMIT
}

// ---------------------------------------------------------------------------
// Page tokens
// ---------------------------------------------------------------------------

/// The lowercase hexadecimal digit of a value below 16.
pub open spec fn hex_digit(n: int) -> char {
    if n < 10 {
        (n + ('0' as int)) as char
    } else {
        (n - 10 + ('a' as int)) as char
    }
}

/// Two lowercase hex digits per byte, most significant first, as `format!("{b:02x}")`.
pub open spec fn hex_text(bytes: Seq<u8>) -> Seq<char>
    decreases bytes.len(),
{
    if bytes.len() == 0 {
        Seq::empty()
    } else {
        hex_text(bytes.drop_last()) + seq![
            hex_digit(bytes.last() as int / 16),
            hex_digit(bytes.last() as int % 16),
        ]
    }
}

/// Whether a character is a lowercase hex digit.
pub open spec fn is_lower_hex(c: char) -> bool {
    ('0' <= c && c <= '9') || ('a' <= c && c <= 'f')
}

fn hex_char(n: u8) -> (c: char)
    requires
        n < 16,
    ensures
        c == hex_digit(n as int),
        is_lower_hex(c),
{
    let table = ['0', '1', '2', '3', '4', '5', '6', '7', '8', '9', 'a', 'b', 'c', 'd', 'e', 'f'];
    let c = table[n as usize];
    assert(c == hex_digit(n as int)) by {
        assert(table@[n as int] == hex_digit(n as int));
    }
    c
}

/// The hex text of the bytes.
pub fn hex_encode(bytes: &[u8]) -> (s: String)
    ensures
        s@ == hex_text(bytes@),
        s@.len() == 2 * bytes@.len(),
        forall|i: int| 0 <= i < s@.len() ==> is_lower_hex(#[trigger] s@[i]),
{
    let mut s = String::new();
    let mut i: usize = 0;
    assert(bytes@.take(0) =~= Seq::<u8>::empty());
    while i < bytes.len()
        invariant
            i <= bytes@.len(),
            s@ == hex_text(bytes@.take(i as int)),
            s@.len() == 2 * i,
            forall|j: int| 0 <= j < s@.len() ==> is_lower_hex(#[trigger] s@[j]),
        decreases bytes.len() - i,
    {
        let b = bytes[i];
        let hi = hex_char(b / 16);
        let lo = hex_char(b % 16);
        crate::chars::push_char(&mut s, hi);
        crate::chars::push_char(&mut s, lo);
        assert(bytes@.take(i + 1).drop_last() == bytes@.take(i as int));
        assert(bytes@.take(i + 1).last() == b);
        i += 1;
    }
    assert(bytes@.take(bytes@.len() as int) == bytes@);
    s
}

/// Eight bytes from the operating system's random source, through `rand`'s `OsRng`
/// (`RngCore::try_fill_bytes`, which reports a failing source as an error instead of
/// panicking). `None` when the source failed; nothing is claimed of the bytes.
#[verifier::external_body]
fn random_bytes() -> (r: Option<[u8; 8]>) {
    let mut b = [0u8; 8];
    match rand::rngs::OsRng.try_fill_bytes(&mut b) {
        Ok(()) => Some(b),
        Err(_) => None,
    }
}

/// A fresh page token: 8 random bytes as 16 lowercase hex digits; `None` when the random
/// source failed.
pub fn generate_verify_token() -> (r: Option<String>)
    ensures
        r matches Some(t) ==> exists|b: Seq<u8>| b.len() == 8 && t@ == hex_text(b),
        r matches Some(t) ==> t@.len() == 16,
        r matches Some(t) ==> forall|i: int| 0 <= i < t@.len() ==> is_lower_hex(#[trigger] t@[i]),
{
    match random_bytes() {
        Some(b) => {
            let t = hex_encode(&b);
            assert(b@.len() == 8);
            Some(t)
        },
        None => None,
    }
}

} // verus!
