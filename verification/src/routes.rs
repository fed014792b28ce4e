//! Which handler an incoming update goes to.
use vstd::prelude::*;

use crate::commands::Command;
use crate::settings::{parse_tag, tag_spec, SettingsTarget};
use crate::verify::{parse_start_payload, start_payload_spec, StartPayload};

verus! {

/// The handler of a message.
#[derive(Debug, Clone, PartialEq, Eq)]
pub enum MessageRoute {
    /// An administrator command addressed to the bot.
    Command(Command),
    /// A reply, in the private chat, to a settings prompt.
    SettingsReply(SettingsTarget),
    /// `/start` with a payload, in the private chat.
    Start(StartPayload),
    /// Any other message in a group, screened for spam.
    GroupMessage,
    /// Nothing to do.
    Ignore,
}

/// The route of a message: a recognized administrator command first; then, in the
/// private chat, a reply to a settings prompt (read from the text of the message replied
/// to), or else a `/start` payload; every other group message is screened; other private
/// messages are ignored.
pub open spec fn message_route_spec(
    command: Option<Command>,
    is_private: bool,
    replied_text: Option<Seq<char>>,
    text: Option<Seq<char>>,
) -> MessageRoute {
    match command {
        Some(c) => MessageRoute::Command(c),
        None => if !is_private {
            MessageRoute::GroupMessage
        } else {
            match (match replied_text {
                Some(r) => tag_spec(r),
                None => None,
            }) {
                Some(t) => MessageRoute::SettingsReply(t),
                None => match (match text {
                    Some(t) => start_payload_spec(t),
                    None => None,
                }) {
                    Some(p) => MessageRoute::Start(p),
                    None => MessageRoute::Ignore,
                },
            }
        },
    }
}

/// Routes a message, given the administrator command found in it (if any), whether it was
/// sent in the private chat, the text of the message it replies to, and its own text.
pub fn route_message(
    command: Option<Command>,
    is_private: bool,
    replied_text: Option<&str>,
    text: Option<&str>,
) -> (r: MessageRoute)
    ensures
        r == message_route_spec(
            command,
            is_private,
            match replied_text {
                Some(s) => Some(s@),
                None => None,
            },
            match text {
                Some(s) => Some(s@),
                None => None,
            },
        ),
{
    match command {
        Some(c) => MessageRoute::Command(c),
        None => if !is_private {
            MessageRoute::GroupMessage
        } else {
            let tag = match replied_text {
                Some(r) => parse_tag(r),
                None => None,
            };
            match tag {
                Some(t) => MessageRoute::SettingsReply(t),
                None => {
                    let payload = match text {
                        Some(t) => parse_start_payload(t),
                        None => None,
                    };
                    match payload {
                        Some(p) => MessageRoute::Start(p),
                        None => MessageRoute::Ignore,
                    }
                },
            }
        },
    }
}

/// Whether a membership change is a join: the user was not in the chat before and is now.
pub fn is_member_join(was_present: bool, is_present: bool) -> (b: bool)
    ensures
        b == (!was_present && is_present),
{
    !was_present && is_present
}

} // verus!
