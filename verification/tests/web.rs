use anubot::session::{NewSession, Session};
use anubot::text::{
    WEB_VERIFY_EXPIRED, WEB_VERIFY_LINK_INVALID, WEB_VERIFY_OK, WEB_VERIFY_SERVICE_ERROR,
    WEB_VERIFY_UNRESTRICT_FAILED,
};
use anubot::web::{
    page_after_lookup, page_after_mark, page_after_unrestrict, render, PageReply, PageStep,
};

fn session(token: &str) -> Session {
    Session::create(
        NewSession {
            chat_id: 1,
            user_id: 2,
            chat_title: "c",
            user_first_name: "u",
            verify_msg_id: Some(9),
            verify_token: token,
            expires_at: 100,
        },
        0,
    )
}

#[test]
fn lookup_outcomes() {
    assert_eq!(
        page_after_lookup(true, None, "t"),
        PageStep::Reply(PageReply { status: 500, message: WEB_VERIFY_SERVICE_ERROR })
    );
    assert_eq!(
        page_after_lookup(false, None, "t"),
        PageStep::Reply(PageReply { status: 404, message: WEB_VERIFY_LINK_INVALID })
    );
    let s = session("abc");
    assert_eq!(
        page_after_lookup(false, Some(&s), "abd"),
        PageStep::Reply(PageReply { status: 404, message: WEB_VERIFY_LINK_INVALID })
    );
    assert_eq!(page_after_lookup(false, Some(&s), "abc"), PageStep::MarkVerified);
}

#[test]
fn mark_and_unrestrict_outcomes() {
    assert_eq!(
        page_after_mark(None),
        PageStep::Reply(PageReply { status: 500, message: WEB_VERIFY_SERVICE_ERROR })
    );
    assert_eq!(
        page_after_mark(Some(false)),
        PageStep::Reply(PageReply { status: 410, message: WEB_VERIFY_EXPIRED })
    );
    assert_eq!(page_after_mark(Some(true)), PageStep::Unrestrict);
    assert_eq!(
        page_after_unrestrict(false, Some(9)),
        (None, PageReply { status: 500, message: WEB_VERIFY_UNRESTRICT_FAILED })
    );
    assert_eq!(
        page_after_unrestrict(true, Some(9)),
        (Some(9), PageReply { status: 200, message: WEB_VERIFY_OK })
    );
}

#[test]
fn page_html() {
    let page = render("好");
    assert!(page.starts_with("<!doctype html>\n"));
    assert!(page.contains("<title>Anubot 验证</title>"));
    assert!(page.contains("<main>好</main>"));
    assert!(page.ends_with("</html>"));
}
