//! The verification page a member opens from the private chat: the decisions taken on
//! the way to "verified", and the HTML page shown at the end.
use vstd::prelude::*;

use crate::chars::push_str;
use crate::session::Session;
use crate::text::{
    WEB_VERIFY_EXPIRED, WEB_VERIFY_LINK_INVALID, WEB_VERIFY_OK, WEB_VERIFY_SERVICE_ERROR,
    WEB_VERIFY_TITLE, WEB_VERIFY_UNRESTRICT_FAILED,
};

verus! {

pub const STATUS_OK: u16 = 200;

pub const STATUS_NOT_FOUND: u16 = 404;

pub const STATUS_GONE: u16 = 410;

pub const STATUS_SERVER_ERROR: u16 = 500;

/// The HTTP status and the message of the page shown.
#[derive(Debug, Clone, Copy, PartialEq, Eq)]
pub struct PageReply {
    pub status: u16,
    pub message: &'static str,
}

/// The next step of the verification page.
#[derive(Debug, Clone, Copy, PartialEq, Eq)]
pub enum PageStep {
    /// Show this page and stop.
    Reply(PageReply),
    /// Mark the session verified, if it is still pending and not due, with this token.
    MarkVerified,
    /// Lift the member's mute.
    Unrestrict,
}

/// After looking the waiting session up: a failed lookup is a service error; a missing
/// session, or one whose token is not the link's, makes the link invalid.
pub fn page_after_lookup(lookup_failed: bool, session: Option<&Session>, token: &str) -> (s:
    PageStep)
    ensures
        lookup_failed ==> s == PageStep::Reply(
            PageReply { status: STATUS_SERVER_ERROR, message: WEB_VERIFY_SERVICE_ERROR },
        ),
        !lookup_failed ==> match session {
            None => s == PageStep::Reply(
                PageReply { status: STATUS_NOT_FOUND, message: WEB_VERIFY_LINK_INVALID },
            ),
            Some(x) => if x.verify_token matches Some(t) && t@ == token@ {
                s == PageStep::MarkVerified
            } else {
                s == PageStep::Reply(
                    PageReply { status: STATUS_NOT_FOUND, message: WEB_VERIFY_LINK_INVALID },
                )
            },
        },
{
    if lookup_failed {
        return PageStep::Reply(
            PageReply { status: STATUS_SERVER_ERROR, message: WEB_VERIFY_SERVICE_ERROR },
        );
    }
    match session {
        None => PageStep::Reply(
            PageReply { status: STATUS_NOT_FOUND, message: WEB_VERIFY_LINK_INVALID },
        ),
        Some(x) => {
            let matches = match &x.verify_token {
                Some(t) => crate::chars::str_eq(t.as_str(), token),
                None => false,
            };
            if matches {
                PageStep::MarkVerified
            } else {
                PageStep::Reply(
                    PageReply { status: STATUS_NOT_FOUND, message: WEB_VERIFY_LINK_INVALID },
                )
            }
        },
    }
}

/// After trying to mark the session verified (`None` if the update failed): a failure is
/// a service error, no change means the session was verified or expired meanwhile.
pub fn page_after_mark(marked: Option<bool>) -> (s: PageStep)
    ensures
        s == (match marked {
            None => PageStep::Reply(
                PageReply { status: STATUS_SERVER_ERROR, message: WEB_VERIFY_SERVICE_ERROR },
            ),
            Some(false) => PageStep::Reply(
                PageReply { status: STATUS_GONE, message: WEB_VERIFY_EXPIRED },
            ),
            Some(true) => PageStep::Unrestrict,
        }),
{
    match marked {
        None => PageStep::Reply(
            PageReply { status: STATUS_SERVER_ERROR, message: WEB_VERIFY_SERVICE_ERROR },
        ),
        Some(false) => PageStep::Reply(PageReply { status: STATUS_GONE, message: WEB_VERIFY_EXPIRED }),
        Some(true) => PageStep::Unrestrict,
    }
}

/// The end of the page: if lifting the mute failed, an error page; otherwise the
/// verification message (if any) to delete and the success page.
pub fn page_after_unrestrict(unrestricted: bool, verify_msg_id: Option<i64>) -> (r: (
    Option<i64>,
    PageReply,
))
    ensures
        !unrestricted ==> r == (
            None::<i64>,
            PageReply { status: STATUS_SERVER_ERROR, message: WEB_VERIFY_UNRESTRICT_FAILED },
        ),
        unrestricted ==> r == (verify_msg_id, PageReply { status: STATUS_OK, message: WEB_VERIFY_OK }),
{
    if !unrestricted {
        (None, PageReply { status: STATUS_SERVER_ERROR, message: WEB_VERIFY_UNRESTRICT_FAILED })
    } else {
        (verify_msg_id, PageReply { status: STATUS_OK, message: WEB_VERIFY_OK })
    }
}

pub const PAGE_HEAD: &'static str = "<!doctype html>\n<html lang=\"zh\">\n<head>\n<meta charset=\"utf-8\">\n<meta name=\"viewport\" content=\"width=device-width,initial-scale=1\">\n<title>";

pub const PAGE_STYLE: &'static str = "</title>\n<style>\nbody { font-family: -apple-system,BlinkMacSystemFont,sans-serif; padding: 24px; }\nmain { text-align: center; margin-top: 48px; font-size: 17px; }\n</style>\n</head>\n<body>\n<main>";

pub const PAGE_TAIL: &'static str = "</main>\n</body>\n</html>";

/// The HTML page that shows `msg`.
pub open spec fn page_text(msg: Seq<char>) -> Seq<char> {
    PAGE_HEAD@ + WEB_VERIFY_TITLE@ + PAGE_STYLE@ + msg + PAGE_TAIL@
}

/// Renders the page that shows `msg`.
pub fn render(msg: &str) -> (s: String)
    ensures
        s@ == page_text(msg@),
{
    let mut s = String::new();
    push_str(&mut s, PAGE_HEAD);
    push_str(&mut s, WEB_VERIFY_TITLE);
    push_str(&mut s, PAGE_STYLE);
    push_str(&mut s, msg);
    push_str(&mut s, PAGE_TAIL);
    s
}

} // verus!
