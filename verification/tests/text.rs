use anubot::text::{fill, settings_tag};

#[test]
fn substitutes_known_keys() {
    assert_eq!(
        fill(
            "hi {name}, joining {chat}",
            &[("name", "Alice"), ("chat", "Gentoo zh")]
        ),
        "hi Alice, joining Gentoo zh"
    );
}

#[test]
fn preserves_unknown_keys() {
    assert_eq!(fill("{a} and {b}", &[("a", "X")]), "X and {b}");
}

#[test]
fn does_not_recurse_into_substituted_values() {
    assert_eq!(fill("{a}", &[("a", "{b}"), ("b", "X")]), "{b}");
}

#[test]
fn preserves_lone_open_brace() {
    assert_eq!(fill("hello {", &[]), "hello {");
}

#[test]
fn first_pair_with_a_key_wins() {
    assert_eq!(fill("{k}", &[("k", "1"), ("k", "2")]), "1");
}

#[test]
fn text_after_unclosed_brace_is_kept_verbatim() {
    assert_eq!(fill("{a} {b", &[("a", "X"), ("b", "Y")]), "X {b");
}

#[test]
fn settings_tag_marks_chat_and_field() {
    assert_eq!(settings_tag(-1001234567890, "url"), "\n\n[set:-1001234567890:url]");
    assert_eq!(settings_tag(42, "model"), "\n\n[set:42:model]");
}

#[test]
fn text_without_placeholders_is_unchanged() {
    assert_eq!(fill("plain text, no keys", &[("a", "X")]), "plain text, no keys");
    assert_eq!(fill("{a} stays", &[]), "{a} stays");
}
