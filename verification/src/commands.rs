//! Group administrator commands: recognizing them, deciding what each one does to
//! the group's settings, and rendering the reply.
use vstd::prelude::*;

use crate::chars::{
    chars_of, find_char, find_in_range, int_decimal, parse_i64_range, parse_i64_spec, push_i64,
    push_str, range_eq, string_of_range, trim, trim_range,
};
use crate::group::Group;
use crate::text::{
    SETTINGS_COMMAND_PROMPT, SETTINGS_GROUP_NOT_REGISTERED,
    fill, fill_text, pairs_view, REPLY_INVALID_TIMEOUT, REPLY_NOT_REGISTERED_TEMPLATE,
    REPLY_NOT_SUPERGROUP, REPLY_OK, REPLY_STATUS_DISABLED, REPLY_STATUS_ENABLED,
    REPLY_STATUS_TEMPLATE,
};

verus! {

/// Shortest verification timeout an administrator may set, in seconds.
pub const TIMEOUT_MIN: i64 = 60;

/// Longest verification timeout an administrator may set, in seconds.
pub const TIMEOUT_MAX: i64 = 3600;

/// Span of the `/status` statistics, in seconds.
pub const STATUS_WINDOW_SECONDS: i64 = 86400;

/// An administrator command addressed to the bot in a group.
#[derive(Debug, Clone, PartialEq, Eq)]
pub enum Command {
    Enable,
    Disable,
    SetTimeout(i64),
    SetWelcome(Option<String>),
    SetButton(Option<String>),
    Status,
    Settings,
}

/// A command, with its texts as character sequences.
pub enum CommandView {
    Enable,
    Disable,
    SetTimeout(i64),
    SetWelcome(Option<Seq<char>>),
    SetButton(Option<Seq<char>>),
    Status,
    Settings,
}

impl View for Command {
    type V = CommandView;

    open spec fn view(&self) -> CommandView {
        match self {
            Command::Enable => CommandView::Enable,
            Command::Disable => CommandView::Disable,
            Command::SetTimeout(n) => CommandView::SetTimeout(*n),
            Command::SetWelcome(t) => CommandView::SetWelcome(t.deep_view()),
            Command::SetButton(t) => CommandView::SetButton(t.deep_view()),
            Command::Status => CommandView::Status,
            Command::Settings => CommandView::Settings,
        }
    }
}

/// The answer the bot gives to a command.
#[derive(Debug, Clone, PartialEq, Eq)]
pub enum CommandReply {
    Success,
    NotRegistered,
    NotSupergroup,
    InvalidTimeout,
    Status { enabled: bool, timeout_seconds: i64, verified_24h: i64, declined_24h: i64 },
}

/// An optional text argument: an empty argument means "none".
pub open spec fn opt_text(s: Seq<char>) -> Option<Seq<char>> {
    if s.len() == 0 {
        None
    } else {
        Some(s)
    }
}

/// The command that `cmd` with argument text `rest` denotes: `/enable`, `/disable`,
/// `/status` and `/settings` take no argument, `/set_timeout` takes an integer, and
/// `/set_welcome` and `/set_button` take an optional text.
pub open spec fn admin_command_spec(cmd: Seq<char>, rest: Seq<char>) -> Option<CommandView> {
    if cmd == "/enable"@ && rest.len() == 0 {
        Some(CommandView::Enable)
    } else if cmd == "/disable"@ && rest.len() == 0 {
        Some(CommandView::Disable)
    } else if cmd == "/set_timeout"@ {
        match parse_i64_spec(rest) {
            Some(n) => Some(CommandView::SetTimeout(n)),
            None => None,
        }
    } else if cmd == "/set_welcome"@ {
        Some(CommandView::SetWelcome(opt_text(rest)))
    } else if cmd == "/set_button"@ {
        Some(CommandView::SetButton(opt_text(rest)))
    } else if cmd == "/status"@ && rest.len() == 0 {
        Some(CommandView::Status)
    } else if cmd == "/settings"@ && rest.len() == 0 {
        Some(CommandView::Settings)
    } else {
        None
    }
}

pub open spec fn opt_command_view(c: Option<Command>) -> Option<CommandView> {
    match c {
        Some(c) => Some(c@),
        None => None,
    }
}

/// An optional text argument: `None` for an empty one.
pub fn opt_string(s: &str) -> (r: Option<String>)
    ensures
        r.deep_view() == opt_text(s@),
{
    if s.is_empty() {
        None
    } else {
        Some(s.to_owned())
    }
}

fn is_literal(s: &str, lit: &str) -> (b: bool)
    ensures
        b == (s@ == lit@),
{
    crate::chars::str_eq(s, lit)
}

/// What each command word does with its argument: `/set_welcome` and `/set_button` carry a
/// non-empty argument as the new text and clear the text with an empty one;
/// `/set_timeout` carries the integer its argument denotes and is refused otherwise; the
/// other four take no argument and are refused with one.
pub proof fn lemma_command_arguments(rest: Seq<char>)
    ensures
        rest.len() > 0 ==> admin_command_spec("/set_button"@, rest) == Some(
            CommandView::SetButton(Some(rest)),
        ),
        rest.len() == 0 ==> admin_command_spec("/set_button"@, rest) == Some(
            CommandView::SetButton(None),
        ),
        rest.len() > 0 ==> admin_command_spec("/set_welcome"@, rest) == Some(
            CommandView::SetWelcome(Some(rest)),
        ),
        rest.len() == 0 ==> admin_command_spec("/set_welcome"@, rest) == Some(
            CommandView::SetWelcome(None),
        ),
        admin_command_spec("/set_timeout"@, rest) == (match parse_i64_spec(rest) {
            Some(n) => Some(CommandView::SetTimeout(n)),
            None => None,
        }),
        admin_command_spec("/enable"@, rest) == (if rest.len() == 0 {
            Some(CommandView::Enable)
        } else {
            None
        }),
        admin_command_spec("/disable"@, rest) == (if rest.len() == 0 {
            Some(CommandView::Disable)
        } else {
            None
        }),
        admin_command_spec("/status"@, rest) == (if rest.len() == 0 {
            Some(CommandView::Status)
        } else {
            None
        }),
        admin_command_spec("/settings"@, rest) == (if rest.len() == 0 {
            Some(CommandView::Settings)
        } else {
            None
        }),
{
    reveal_strlit("/enable");
    reveal_strlit("/disable");
    reveal_strlit("/set_timeout");
    reveal_strlit("/set_welcome");
    reveal_strlit("/set_button");
    reveal_strlit("/status");
    reveal_strlit("/settings");
    assert("/set_button"@.len() != "/enable"@.len());
    assert("/set_button"@.len() != "/disable"@.len());
    assert("/set_button"@.len() != "/set_timeout"@.len());
    assert("/set_button"@.len() != "/set_welcome"@.len());
    assert("/set_welcome"@.len() != "/enable"@.len());
    assert("/set_welcome"@.len() != "/disable"@.len());
    assert("/set_welcome"@[5] != "/set_timeout"@[5]);
    assert("/status"@[1] != "/enable"@[1]);
    assert("/status"@.len() != "/disable"@.len());
    assert("/status"@.len() != "/set_timeout"@.len());
    assert("/status"@.len() != "/set_welcome"@.len());
    assert("/status"@.len() != "/set_button"@.len());
    assert("/settings"@.len() != "/enable"@.len());
    assert("/settings"@.len() != "/disable"@.len());
    assert("/settings"@.len() != "/set_timeout"@.len());
    assert("/settings"@.len() != "/set_welcome"@.len());
    assert("/settings"@.len() != "/set_button"@.len());
    assert("/settings"@.len() != "/status"@.len());
}

/// Recognizes the command `cmd` (without the `@bot` suffix) with argument text `rest`.
pub fn parse_admin_command(cmd: &str, rest: &str) -> (r: Option<Command>)
    ensures
        opt_command_view(r) == admin_command_spec(cmd@, rest@),
        cmd@ == "/set_button"@ && rest@.len() > 0 ==> (r matches Some(Command::SetButton(Some(t)))
            && t@ == rest@),
        cmd@ == "/set_welcome"@ && rest@.len() > 0 ==> (r matches Some(
            Command::SetWelcome(Some(t)),
        ) && t@ == rest@),
{
    proof {
        lemma_command_arguments(rest@);
    }
    let no_arg = rest.is_empty();
    if is_literal(cmd, "/enable") && no_arg {
        Some(Command::Enable)
    } else if is_literal(cmd, "/disable") && no_arg {
        Some(Command::Disable)
    } else if is_literal(cmd, "/set_timeout") {
        match crate::chars::parse_i64(rest) {
            Some(n) => Some(Command::SetTimeout(n)),
            None => None,
        }
    } else if is_literal(cmd, "/set_welcome") {
        Some(Command::SetWelcome(opt_string(rest)))
    } else if is_literal(cmd, "/set_button") {
        Some(Command::SetButton(opt_string(rest)))
    } else if is_literal(cmd, "/status") && no_arg {
        Some(Command::Status)
    } else if is_literal(cmd, "/settings") && no_arg {
        Some(Command::Settings)
    } else {
        None
    }
}

/// ASCII lowercase of a character.
pub open spec fn ascii_lower(c: char) -> char {
    if 'A' <= c && c <= 'Z' {
        ((c as int) + 32) as char
    } else {
        c
    }
}

/// `str::eq_ignore_ascii_case`.
pub open spec fn eq_ignore_ascii_case(a: Seq<char>, b: Seq<char>) -> bool {
    a.len() == b.len() && forall|i: int| 0 <= i < a.len() ==> ascii_lower(a[i]) == ascii_lower(
        b[i],
    )
}

fn lower_char(c: char) -> (r: char)
    ensures
        r == ascii_lower(c),
{
    if 'A' <= c && c <= 'Z' {
        let u: u8 = ((c as u32) + 32) as u8;
        u as char
    } else {
        c
    }
}

/// Whether `v[lo..hi]` equals `b` up to ASCII case.
pub fn range_eq_ignore_ascii_case(v: &Vec<char>, lo: usize, hi: usize, b: &Vec<char>) -> (r: bool)
    requires
        lo <= hi <= v@.len(),
    ensures
        r == eq_ignore_ascii_case(v@.subrange(lo as int, hi as int), b@),
{
    let ghost a = v@.subrange(lo as int, hi as int);
    if hi - lo != b.len() {
        return false;
    }
    let mut i: usize = 0;
    while i < b.len()
        invariant
            a == v@.subrange(lo as int, hi as int),
            lo <= hi <= v@.len(),
            hi - lo == b@.len(),
            i <= b@.len(),
            forall|j: int| 0 <= j < i ==> ascii_lower(a[j]) == ascii_lower(b@[j]),
        decreases b.len() - i,
    {
        if lower_char(v[lo + i]) != lower_char(b[i]) {
            assert(a[i as int] == v@[lo + i]);
            return false;
        }
        assert(a[i as int] == v@[lo + i]);
        i += 1;
    }
    true
}

/// The command a group message addresses to the bot, given the text of its leading
/// bot-command entity and the text after that entity: the entity must read
/// `/<command>@<bot username>` (username compared without ASCII case), and the trimmed
/// text after it is the argument.
pub open spec fn addressed_command_spec(entity: Seq<char>, after: Seq<char>, bot_username: Seq<
    char,
>) -> Option<CommandView> {
    match find_char(entity, '@') {
        None => None,
        Some(at) => if eq_ignore_ascii_case(entity.skip(at + 1), bot_username) {
            admin_command_spec(entity.take(at), trim(after))
        } else {
            None
        },
    }
}

/// Recognizes a command addressed to this bot from the text of the message's leading
/// bot-command entity and the text that follows it.
pub fn addressed_command(entity: &str, after: &str, bot_username: &str) -> (r: Option<Command>)
    ensures
        opt_command_view(r) == addressed_command_spec(entity@, after@, bot_username@),
{
    let ev = chars_of(entity);
    let n = ev.len();
    assert(ev@.subrange(0, n as int) == ev@);
    match find_in_range(&ev, 0, n, '@') {
        None => None,
        Some(at) => {
            proof {
                crate::chars::lemma_find_char(ev@, '@');
            }
            let bv = chars_of(bot_username);
            assert(ev@.subrange(at + 1, n as int) == ev@.skip(at + 1));
            if !range_eq_ignore_ascii_case(&ev, at + 1, n, &bv) {
                return None;
            }
            let cmd = string_of_range(&ev, 0, at);
            assert(ev@.subrange(0, at as int) == ev@.take(at as int));
            let av = chars_of(after);
            let (a, b) = trim_range(&av, 0, av.len());
            assert(av@.subrange(0, av@.len() as int) == av@);
            let rest = string_of_range(&av, a, b);
            parse_admin_command(cmd.as_str(), rest.as_str())
        },
    }
}

/// The text of a `/status` reply.
pub open spec fn status_text(enabled: bool, timeout_seconds: int, verified: int, declined: int) -> Seq<
    char,
> {
    fill_text(
        REPLY_STATUS_TEMPLATE@,
        seq![
            ("state"@, if enabled {
                REPLY_STATUS_ENABLED@
            } else {
                REPLY_STATUS_DISABLED@
            }),
            ("timeout_seconds"@, int_decimal(timeout_seconds)),
            ("verified_24h"@, int_decimal(verified)),
            ("declined_24h"@, int_decimal(declined)),
        ],
    )
}

/// The text the bot answers a command with.
pub open spec fn reply_text(reply: CommandReply, bot_username: Seq<char>) -> Seq<char> {
    match reply {
        CommandReply::Success => REPLY_OK@,
        CommandReply::NotRegistered => fill_text(
            REPLY_NOT_REGISTERED_TEMPLATE@,
            seq![("bot_username"@, bot_username)],
        ),
        CommandReply::NotSupergroup => REPLY_NOT_SUPERGROUP@,
        CommandReply::InvalidTimeout => REPLY_INVALID_TIMEOUT@,
        CommandReply::Status { enabled, timeout_seconds, verified_24h, declined_24h } =>
            status_text(enabled, timeout_seconds as int, verified_24h as int, declined_24h as int),
    }
}

fn render_status(enabled: bool, timeout_seconds: i64, verified_24h: i64, declined_24h: i64) -> (s:
    String)
    ensures
        s@ == status_text(enabled, timeout_seconds as int, verified_24h as int, declined_24h as int),
{
    let state = if enabled {
        REPLY_STATUS_ENABLED
    } else {
        REPLY_STATUS_DISABLED
    };
    let mut t = String::new();
    push_i64(&mut t, timeout_seconds);
    let mut v = String::new();
    push_i64(&mut v, verified_24h);
    let mut d = String::new();
    push_i64(&mut d, declined_24h);
    let pairs = [
        ("state", state),
        ("timeout_seconds", t.as_str()),
        ("verified_24h", v.as_str()),
        ("declined_24h", d.as_str()),
    ];
    let s = fill(REPLY_STATUS_TEMPLATE, &pairs);
    assert(pairs_view(pairs@) =~= seq![
        ("state"@, state@),
        ("timeout_seconds"@, int_decimal(timeout_seconds as int)),
        ("verified_24h"@, int_decimal(verified_24h as int)),
        ("declined_24h"@, int_decimal(declined_24h as int)),
    ]);
    s
}

/// Renders the answer to a command.
pub fn render_reply(reply: CommandReply, bot_username: &str) -> (s: String)
    ensures
        s@ == reply_text(reply, bot_username@),
{
    match reply {
        CommandReply::Success => REPLY_OK.to_owned(),
        CommandReply::NotRegistered => {
            let pairs = [("bot_username", bot_username)];
            let s = fill(REPLY_NOT_REGISTERED_TEMPLATE, &pairs);
            assert(pairs_view(pairs@) =~= seq![("bot_username"@, bot_username@)]);
            s
        },
        CommandReply::NotSupergroup => REPLY_NOT_SUPERGROUP.to_owned(),
        CommandReply::InvalidTimeout => REPLY_INVALID_TIMEOUT.to_owned(),
        CommandReply::Status { enabled, timeout_seconds, verified_24h, declined_24h } =>
            render_status(enabled, timeout_seconds, verified_24h, declined_24h),
    }
}

// ---------------------------------------------------------------------------
// Carrying a command out
// ---------------------------------------------------------------------------

/// A change to a group's stored settings.
#[derive(Debug, Clone, PartialEq, Eq)]
pub enum GroupWrite {
    /// Create the group enabled with default settings, or enable it if it exists.
    UpsertEnabled,
    SetEnabled(bool),
    SetTimeout(i64),
    SetWelcome(Option<String>),
    SetButton(Option<String>),
}

/// The next step in carrying out a command.
#[derive(Debug, Clone, PartialEq, Eq)]
pub enum CommandStep {
    /// Answer with the link to the AI settings (`/settings`).
    OpenSettings,
    /// Answer at once.
    Reply(CommandReply),
    /// Store the change, then answer.
    Write(GroupWrite, CommandReply),
    /// Read the group's settings, then decide with [`command_with_group`].
    LoadGroup,
    /// Count the sessions verified and expired since `since`, then answer with
    /// [`status_reply`].
    CountStatus { since: i64 },
}

/// The first step of a command in a chat: `/settings` opens the settings; `/enable` needs a
/// supergroup (members of basic groups cannot be muted) and creates or enables the group;
/// every other command first reads the group.
pub fn command_start(cmd: &Command, is_supergroup: bool) -> (s: CommandStep)
    ensures
        s == (match cmd {
            Command::Settings => CommandStep::OpenSettings,
            Command::Enable => if is_supergroup {
                CommandStep::Write(GroupWrite::UpsertEnabled, CommandReply::Success)
            } else {
                CommandStep::Reply(CommandReply::NotSupergroup)
            },
            _ => CommandStep::LoadGroup,
        }),
{
    match cmd {
        Command::Settings => CommandStep::OpenSettings,
        Command::Enable => if is_supergroup {
            CommandStep::Write(GroupWrite::UpsertEnabled, CommandReply::Success)
        } else {
            CommandStep::Reply(CommandReply::NotSupergroup)
        },
        _ => CommandStep::LoadGroup,
    }
}

/// Whether a timeout may be set: 60 to 3600 seconds.
pub open spec fn timeout_allowed(seconds: i64) -> bool {
    TIMEOUT_MIN <= seconds <= TIMEOUT_MAX
}

/// The step of a command once the group was read at time `now`: an unknown group is not
/// registered; the setters store their value (a timeout only when allowed); `/status`
/// counts the sessions of the last 24 hours.
pub fn command_with_group(cmd: Command, group: Option<&Group>, now: i64) -> (s: CommandStep)
    requires
        now >= i64::MIN + STATUS_WINDOW_SECONDS,
    ensures
        group is None ==> s == CommandStep::Reply(CommandReply::NotRegistered),
        group is Some ==> match cmd {
            Command::Enable => s == CommandStep::Write(
                GroupWrite::SetEnabled(true),
                CommandReply::Success,
            ),
            Command::Disable => s == CommandStep::Write(
                GroupWrite::SetEnabled(false),
                CommandReply::Success,
            ),
            Command::SetTimeout(n) => if timeout_allowed(n) {
                s == CommandStep::Write(GroupWrite::SetTimeout(n), CommandReply::Success)
            } else {
                s == CommandStep::Reply(CommandReply::InvalidTimeout)
            },
            Command::SetWelcome(t) => s matches CommandStep::Write(
                GroupWrite::SetWelcome(w),
                CommandReply::Success,
            ) && w.deep_view() == t.deep_view(),
            Command::SetButton(t) => s matches CommandStep::Write(
                GroupWrite::SetButton(w),
                CommandReply::Success,
            ) && w.deep_view() == t.deep_view(),
            Command::Settings => s == CommandStep::Reply(CommandReply::Success),
            Command::Status => s == CommandStep::CountStatus { since: (now - STATUS_WINDOW_SECONDS) as i64 },
        },
        s matches CommandStep::Write(GroupWrite::SetTimeout(t), _) ==> timeout_allowed(t),
{
    if group.is_none() {
        return CommandStep::Reply(CommandReply::NotRegistered);
    }
    match cmd {
        Command::Enable => CommandStep::Write(GroupWrite::SetEnabled(true), CommandReply::Success),
        Command::Disable => CommandStep::Write(GroupWrite::SetEnabled(false), CommandReply::Success),
        Command::SetTimeout(n) => if TIMEOUT_MIN <= n && n <= TIMEOUT_MAX {
            CommandStep::Write(GroupWrite::SetTimeout(n), CommandReply::Success)
        } else {
            CommandStep::Reply(CommandReply::InvalidTimeout)
        },
        Command::SetWelcome(t) => CommandStep::Write(GroupWrite::SetWelcome(t), CommandReply::Success),
        Command::SetButton(t) => CommandStep::Write(GroupWrite::SetButton(t), CommandReply::Success),
        Command::Settings => CommandStep::Reply(CommandReply::Success),
        Command::Status => CommandStep::CountStatus { since: now - STATUS_WINDOW_SECONDS },
    }
}

/// The `/status` answer: the group's state and timeout, with the counts of sessions
/// verified and expired in the window (expired ones are reported as declined).
pub fn status_reply(group: &Group, verified: i64, expired: i64) -> (r: CommandReply)
    ensures
        r == (CommandReply::Status {
            enabled: group.enabled,
            timeout_seconds: group.timeout_seconds,
            verified_24h: verified,
            declined_24h: expired,
        }),
{
    CommandReply::Status {
        enabled: group.enabled,
        timeout_seconds: group.timeout_seconds,
        verified_24h: verified,
        declined_24h: expired,
    }
}

/// The answer to `/settings`: for a group that was never enabled, a hint to enable it
/// first; otherwise a prompt with a button holding the settings deep link.
pub fn settings_command_reply(registered: bool, bot_username: &str, chat_id: i64) -> (r: (
    &'static str,
    Option<String>,
))
    ensures
        !registered ==> r.0@ == SETTINGS_GROUP_NOT_REGISTERED@ && r.1 is None,
        registered ==> r.0@ == SETTINGS_COMMAND_PROMPT@ && r.1 is Some,
        registered ==> r.1->0@ == crate::verify::settings_deep_link_text(bot_username@, chat_id as int),
{
    if !registered {
        (SETTINGS_GROUP_NOT_REGISTERED, None)
    } else {
        (SETTINGS_COMMAND_PROMPT, Some(crate::verify::settings_deep_link(bot_username, chat_id)))
    }
}

} // verus!
