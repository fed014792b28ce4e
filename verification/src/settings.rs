//! The AI settings dialogue in the private chat: the menu and its buttons, the callback
//! data they carry, the prompts that ask for a value, and the checks a reply must pass.
use vstd::prelude::*;
use vstd::utf8::{decode_utf8, encode_utf8, is_char_boundary};

use crate::chars::{
    chars_of, find_char, find_in_range, has_prefix, int_decimal, is_digit, lemma_find_char,
    lemma_find_char_none, lemma_int_decimal_chars, lemma_parse_int_decimal, lemma_rfind_seq,
    lemma_rfind_seq_unique, occurs_at, parse_i64_range, parse_i64_spec, push_i64, push_range,
    push_str, range_eq, rfind_seq, rfind_vec, string_of_range, trim, trim_range,
};
use crate::group::{
    ai_field_spec, ai_field_tag, is_numeric_field, lemma_tag_parses_back, AiConfig, AiField,
};
use crate::text::{
    fill, fill_text, pairs_view, settings_tag, settings_tag_text, BTN_SET_API_BASE,
    BTN_SET_API_KEY, BTN_SET_MODEL, BTN_SET_PROVIDER, BTN_SET_SPAM_KICK_THRESHOLD,
    BTN_SET_SPAM_MESSAGE_LIMIT, BTN_SET_SPAM_WINDOW_HOURS, BTN_TEST, PROVIDER_BUTTONS,
    SETTINGS_AI_CONFIG_TEMPLATE, SETTINGS_EMPTY_VALUE, SETTINGS_INVALID_NUMBER,
    SETTINGS_INVALID_URL, SETTINGS_PROMPT_API_BASE, SETTINGS_PROMPT_API_KEY,
    SETTINGS_PROMPT_MODEL, SETTINGS_PROMPT_PICK_PROVIDER, SETTINGS_PROMPT_SPAM_KICK_THRESHOLD,
    SETTINGS_PROMPT_SPAM_MESSAGE_LIMIT, SETTINGS_PROMPT_SPAM_WINDOW_HOURS,
    SETTINGS_PROVIDER_SELECTED_PREFIX, SETTINGS_TEST_FAILED_PREFIX, SETTINGS_TEST_OK,
    SETTINGS_TEST_PENDING, SETTINGS_UNSET,
};
use crate::ai::{error_text, AiError};

verus! {

/// A field of a chat's AI configuration that a prompt asks for.
#[derive(Debug, Clone, Copy, PartialEq, Eq)]
pub struct SettingsTarget {
    pub chat_id: i64,
    pub field: AiField,
}

// ---------------------------------------------------------------------------
// Prompt markers
// ---------------------------------------------------------------------------

/// The target named by the last `[set:<chat id>:<field>]` marker in `text`.
pub open spec fn tag_spec(text: Seq<char>) -> Option<SettingsTarget> {
    match rfind_seq(text, "[set:"@) {
        None => None,
        Some(st) => {
            let rest = text.skip(st + 5);
            match find_char(rest, ']') {
                None => None,
                Some(e) => {
                    let inner = rest.take(e);
                    match find_char(inner, ':') {
                        None => None,
                        Some(c) => match parse_i64_spec(inner.take(c)) {
                            None => None,
                            Some(id) => match ai_field_spec(inner.skip(c + 1)) {
                                None => None,
                                Some(f) => Some(SettingsTarget { chat_id: id, field: f }),
                            },
                        },
                    }
                },
            }
        },
    }
}

/// Reads the target out of the marker that ends a settings prompt.
pub fn parse_tag(text: &str) -> (r: Option<SettingsTarget>)
    ensures
        r == tag_spec(text@),
{
    let v = chars_of(text);
    let n = v.len();
    let marker = chars_of("[set:");
    proof {
        reveal_strlit("[set:");
    }
    let st = match rfind_vec(&v, &marker) {
        None => {
            return None;
        },
        Some(st) => st,
    };
    proof {
        lemma_rfind_seq(v@, marker@);
    }
    let ghost rest = v@.skip(st + 5);
    assert(rest == v@.subrange(st + 5, n as int));
    let e = match find_in_range(&v, st + 5, n, ']') {
        None => {
            return None;
        },
        Some(e) => e,
    };
    proof {
        lemma_find_char(rest, ']');
    }
    let ie = st + 5 + e;
    let ghost inner = rest.take(e as int);
    assert(inner == v@.subrange(st + 5, ie as int));
    let c = match find_in_range(&v, st + 5, ie, ':') {
        None => {
            return None;
        },
        Some(c) => c,
    };
    proof {
        lemma_find_char(inner, ':');
    }
    let ce = st + 5 + c;
    assert(inner.take(c as int) == v@.subrange(st + 5, ce as int));
    assert(inner.skip(c + 1) == v@.subrange(ce + 1, ie as int));
    let id = match parse_i64_range(&v, st + 5, ce) {
        None => {
            return None;
        },
        Some(id) => id,
    };
    let field_text = string_of_range(&v, ce + 1, ie);
    match AiField::parse(field_text.as_str()) {
        None => None,
        Some(field) => Some(SettingsTarget { chat_id: id, field }),
    }
}

proof fn lemma_decimal_chars(n: int)
    ensures
        int_decimal(n).len() > 0,
        forall|i: int|
            0 <= i < int_decimal(n).len() ==> {
                let c = #[trigger] int_decimal(n)[i];
                &&& c != '['
                &&& c != ']'
                &&& c != ':'
            },
{
    lemma_int_decimal_chars(n);
    if n < 0 {
        crate::chars::lemma_nat_decimal_digits((-n) as nat);
    } else {
        crate::chars::lemma_nat_decimal_digits(n as nat);
    }
}

proof fn lemma_tag_chars(f: AiField)
    ensures
        forall|i: int|
            0 <= i < ai_field_tag(f).len() ==> {
                let c = #[trigger] ai_field_tag(f)[i];
                &&& 'a' <= c <= 'z'
            },
{
    reveal_strlit("provider");
    reveal_strlit("url");
    reveal_strlit("key");
    reveal_strlit("model");
    reveal_strlit("limit");
    reveal_strlit("window");
    reveal_strlit("kick");
}

proof fn lemma_last_marker(body: Seq<char>, tail: Seq<char>)
    requires
        forall|i: int| 0 <= i < tail.len() ==> tail[i] != '[',
    ensures
        rfind_seq(body + "\n\n[set:"@ + tail, "[set:"@) == Some(body.len() + 2int),
{
    reveal_strlit("\n\n[set:");
    reveal_strlit("[set:");
    let t = body + "\n\n[set:"@ + tail;
    let st: int = body.len() + 2int;
    assert(t.subrange(st, st + 5) =~= "[set:"@);
    assert forall|j: int| st < j implies !occurs_at(t, "[set:"@, j) by {
        if occurs_at(t, "[set:"@, j) {
            assert(t.subrange(j, j + 5)[0] == t[j]);
            if j < st + 5 {
                assert(t[j] == "\n\n[set:"@[j - body.len()]);
            } else {
                assert(t[j] == tail[j - st - 5]);
            }
        }
    }
    lemma_rfind_seq_unique(t, "[set:"@, st);
}

proof fn lemma_marker_tail(chat_id: i64, field: AiField)
    ensures
        ({
            let d = int_decimal(chat_id as int);
            let g = ai_field_tag(field);
            let rest = d + ":"@ + g + "]"@;
            let e = d.len() + 1int + g.len();
            &&& forall|i: int| 0 <= i < rest.len() ==> rest[i] != '['
            &&& find_char(rest, ']') == Some(e)
            &&& find_char(rest.take(e), ':') == Some(d.len() as int)
            &&& rest.take(e).take(d.len() as int) == d
            &&& rest.take(e).skip(d.len() + 1int) == g
        }),
{
    reveal_strlit(":");
    reveal_strlit("]");
    let d = int_decimal(chat_id as int);
    let g = ai_field_tag(field);
    lemma_decimal_chars(chat_id as int);
    lemma_tag_chars(field);
    let rest = d + ":"@ + g + "]"@;
    let e: int = d.len() + 1int + g.len();
    assert forall|i: int| 0 <= i < rest.len() implies rest[i] != '[' && (i < e ==> rest[i] != ']')
        by {
        if i < d.len() {
            assert(rest[i] == d[i]);
        } else if d.len() < i < e {
            assert(rest[i] == g[i - d.len() - 1]);
        }
    }
    crate::chars::lemma_find_char_unique(rest, ']', e);
    let inner = rest.take(e);
    assert forall|j: int| 0 <= j < d.len() implies inner[j] != ':' by {
        assert(inner[j] == d[j]);
    }
    crate::chars::lemma_find_char_unique(inner, ':', d.len() as int);
    assert(inner.take(d.len() as int) =~= d);
    assert(inner.skip(d.len() + 1int) =~= g);
}

/// A prompt that ends with the marker of a chat and field names that chat and field,
/// whatever the prompt's body says.
pub proof fn lemma_prompt_marker_names_target(body: Seq<char>, chat_id: i64, field: AiField)
    ensures
        tag_spec(body + settings_tag_text(chat_id as int, ai_field_tag(field))) == Some(
            SettingsTarget { chat_id, field },
        ),
{
    let d = int_decimal(chat_id as int);
    let g = ai_field_tag(field);
    let tail = d + ":"@ + g + "]"@;
    lemma_marker_tail(chat_id, field);
    let t = body + settings_tag_text(chat_id as int, g);
    assert(t =~= body + "\n\n[set:"@ + tail);
    lemma_last_marker(body, tail);
    assert(t.skip(body.len() + 2int + 5) =~= tail) by {
        reveal_strlit("\n\n[set:");
    }
    lemma_parse_int_decimal(chat_id);
    lemma_tag_parses_back(field);
}

// ---------------------------------------------------------------------------
// Callback data
// ---------------------------------------------------------------------------

/// What a button press in the settings menu asks for.
#[derive(Debug, Clone, PartialEq, Eq)]
pub enum CallbackAction {
    /// Ask for a new value of the field.
    OpenField(SettingsTarget),
    /// Store `value` as the chat's provider.
    SetProvider { chat_id: i64, value: String },
    /// Try the chat's configuration with a test call.
    Test { chat_id: i64 },
}

pub enum CallbackView {
    OpenField(SettingsTarget),
    SetProvider { chat_id: i64, value: Seq<char> },
    Test { chat_id: i64 },
}

impl View for CallbackAction {
    type V = CallbackView;

    open spec fn view(&self) -> CallbackView {
        match self {
            CallbackAction::OpenField(t) => CallbackView::OpenField(*t),
            CallbackAction::SetProvider { chat_id, value } => CallbackView::SetProvider {
                chat_id: *chat_id,
                value: value@,
            },
            CallbackAction::Test { chat_id } => CallbackView::Test { chat_id: *chat_id },
        }
    }
}

pub open spec fn opt_callback_view(a: Option<CallbackAction>) -> Option<CallbackView> {
    match a {
        Some(a) => Some(a@),
        None => None,
    }
}

/// What callback data asks for: `setval:<chat id>:provider:<value>` sets the provider
/// (the value may itself hold `:`), `set:<chat id>:<field>` asks for a field, and
/// `test:<chat id>` tests the configuration.
pub open spec fn callback_spec(d: Seq<char>) -> Option<CallbackView> {
    if has_prefix(d, "setval:"@) {
        let rest = d.skip(7);
        match find_char(rest, ':') {
            None => None,
            Some(i) => {
                let r2 = rest.skip(i + 1);
                match find_char(r2, ':') {
                    None => None,
                    Some(j) => match parse_i64_spec(rest.take(i)) {
                        None => None,
                        Some(id) => if r2.take(j) == "provider"@ {
                            Some(CallbackView::SetProvider { chat_id: id, value: r2.skip(j + 1) })
                        } else {
                            None
                        },
                    },
                }
            },
        }
    } else if has_prefix(d, "set:"@) {
        let rest = d.skip(4);
        match find_char(rest, ':') {
            None => None,
            Some(i) => match parse_i64_spec(rest.take(i)) {
                None => None,
                Some(id) => match ai_field_spec(rest.skip(i + 1)) {
                    None => None,
                    Some(f) => Some(CallbackView::OpenField(SettingsTarget { chat_id: id, field: f })),
                },
            },
        }
    } else if has_prefix(d, "test:"@) {
        match parse_i64_spec(d.skip(5)) {
            None => None,
            Some(id) => Some(CallbackView::Test { chat_id: id }),
        }
    } else {
        None
    }
}

fn starts_with(v: &Vec<char>, p: &str) -> (b: bool)
    ensures
        b == has_prefix(v@, p@),
{
    let pv = chars_of(p);
    if pv.len() > v.len() {
        return false;
    }
    range_eq(v, 0, pv.len(), &pv)
}

/// Reads the data of a settings-menu button press.
pub fn parse_callback(data: &str) -> (r: Option<CallbackAction>)
    ensures
        opt_callback_view(r) == callback_spec(data@),
{
    proof {
        reveal_strlit("setval:");
        reveal_strlit("set:");
        reveal_strlit("test:");
    }
    let v = chars_of(data);
    let n = v.len();
    if starts_with(&v, "setval:") {
        let ghost rest = v@.skip(7);
        assert(rest == v@.subrange(7, n as int));
        let i = match find_in_range(&v, 7, n, ':') {
            None => {
                return None;
            },
            Some(i) => i,
        };
        proof {
            lemma_find_char(rest, ':');
        }
        let ie = 7 + i;
        let ghost r2 = rest.skip(i + 1);
        assert(r2 == v@.subrange(ie + 1, n as int));
        let j = match find_in_range(&v, ie + 1, n, ':') {
            None => {
                return None;
            },
            Some(j) => j,
        };
        proof {
            lemma_find_char(r2, ':');
        }
        let je = ie + 1 + j;
        assert(rest.take(i as int) == v@.subrange(7, ie as int));
        assert(r2.take(j as int) == v@.subrange(ie + 1, je as int));
        assert(r2.skip(j + 1) == v@.subrange(je + 1, n as int));
        let id = match parse_i64_range(&v, 7, ie) {
            None => {
                return None;
            },
            Some(id) => id,
        };
        let provider = chars_of("provider");
        if !range_eq(&v, ie + 1, je, &provider) {
            return None;
        }
        let value = string_of_range(&v, je + 1, n);
        Some(CallbackAction::SetProvider { chat_id: id, value })
    } else if starts_with(&v, "set:") {
        let ghost rest = v@.skip(4);
        assert(rest == v@.subrange(4, n as int));
        let i = match find_in_range(&v, 4, n, ':') {
            None => {
                return None;
            },
            Some(i) => i,
        };
        proof {
            lemma_find_char(rest, ':');
        }
        let ie = 4 + i;
        assert(rest.take(i as int) == v@.subrange(4, ie as int));
        assert(rest.skip(i + 1) == v@.subrange(ie + 1, n as int));
        let id = match parse_i64_range(&v, 4, ie) {
            None => {
                return None;
            },
            Some(id) => id,
        };
        let field_text = string_of_range(&v, ie + 1, n);
        match AiField::parse(field_text.as_str()) {
            None => None,
            Some(field) => Some(CallbackAction::OpenField(SettingsTarget { chat_id: id, field })),
        }
    } else if starts_with(&v, "test:") {
        assert(v@.skip(5) == v@.subrange(5, n as int));
        match parse_i64_range(&v, 5, n) {
            None => None,
            Some(id) => Some(CallbackAction::Test { chat_id: id }),
        }
    } else {
        None
    }
}

/// The data of the button that asks for `field` of `chat_id`.
pub open spec fn open_field_data_text(chat_id: int, field: AiField) -> Seq<char> {
    "set:"@ + int_decimal(chat_id) + ":"@ + ai_field_tag(field)
}

/// The data of the button that picks the provider `value` for `chat_id`.
pub open spec fn provider_data_text(chat_id: int, value: Seq<char>) -> Seq<char> {
    "setval:"@ + int_decimal(chat_id) + ":provider:"@ + value
}

/// The data of the button that tests the configuration of `chat_id`.
pub open spec fn test_data_text(chat_id: int) -> Seq<char> {
    "test:"@ + int_decimal(chat_id)
}

pub fn open_field_data(chat_id: i64, field: AiField) -> (s: String)
    ensures
        s@ == open_field_data_text(chat_id as int, field),
{
    let mut s = String::new();
    push_str(&mut s, "set:");
    push_i64(&mut s, chat_id);
    push_str(&mut s, ":");
    push_str(&mut s, field.tag());
    s
}

pub fn provider_data(chat_id: i64, value: &str) -> (s: String)
    ensures
        s@ == provider_data_text(chat_id as int, value@),
{
    let mut s = String::new();
    push_str(&mut s, "setval:");
    push_i64(&mut s, chat_id);
    push_str(&mut s, ":provider:");
    push_str(&mut s, value);
    s
}

pub fn test_data(chat_id: i64) -> (s: String)
    ensures
        s@ == test_data_text(chat_id as int),
{
    let mut s = String::new();
    push_str(&mut s, "test:");
    push_i64(&mut s, chat_id);
    s
}

/// The field button of a chat's menu reads back as a request for that field.
pub proof fn lemma_open_field_data_round_trip(chat_id: i64, field: AiField)
    ensures
        callback_spec(open_field_data_text(chat_id as int, field)) == Some(
            CallbackView::OpenField(SettingsTarget { chat_id, field }),
        ),
{
    reveal_strlit("setval:");
    reveal_strlit("set:");
    reveal_strlit(":");
    let d = int_decimal(chat_id as int);
    let g = ai_field_tag(field);
    lemma_decimal_chars(chat_id as int);
    let t = open_field_data_text(chat_id as int, field);
    assert(!has_prefix(t, "setval:"@)) by {
        if has_prefix(t, "setval:"@) {
            assert(t.subrange(0, 7)[3] == t[3]);
            assert(t[3] == ':');
        }
    }
    assert(t.subrange(0, 4) =~= "set:"@);
    let rest = t.skip(4);
    assert(rest =~= d + ":"@ + g);
    assert forall|j: int| 0 <= j < d.len() implies rest[j] != ':' by {
        assert(rest[j] == d[j]);
    }
    crate::chars::lemma_find_char_unique(rest, ':', d.len() as int);
    assert(rest.take(d.len() as int) =~= d);
    assert(rest.skip(d.len() + 1int) =~= g);
    lemma_parse_int_decimal(chat_id);
    lemma_tag_parses_back(field);
}

/// A provider button reads back as picking exactly its value, even a value holding `:`.
pub proof fn lemma_provider_data_round_trip(chat_id: i64, value: Seq<char>)
    ensures
        callback_spec(provider_data_text(chat_id as int, value)) == Some(
            CallbackView::SetProvider { chat_id, value },
        ),
{
    reveal_strlit("setval:");
    reveal_strlit(":provider:");
    reveal_strlit("provider");
    let d = int_decimal(chat_id as int);
    lemma_decimal_chars(chat_id as int);
    let t = provider_data_text(chat_id as int, value);
    assert(t.subrange(0, 7) =~= "setval:"@);
    let rest = t.skip(7);
    assert(rest =~= d + ":provider:"@ + value);
    assert forall|j: int| 0 <= j < d.len() implies rest[j] != ':' by {
        assert(rest[j] == d[j]);
    }
    crate::chars::lemma_find_char_unique(rest, ':', d.len() as int);
    let r2 = rest.skip(d.len() + 1int);
    assert(r2 =~= "provider:"@ + value) by {
        reveal_strlit("provider:");
    }
    reveal_strlit("provider:");
    crate::chars::lemma_find_char_unique(r2, ':', 8);
    assert(r2.take(8) =~= "provider"@);
    assert(r2.skip(9) =~= value);
    assert(rest.take(d.len() as int) =~= d);
    lemma_parse_int_decimal(chat_id);
}

/// The test button reads back as testing its chat.
pub proof fn lemma_test_data_round_trip(chat_id: i64)
    ensures
        callback_spec(test_data_text(chat_id as int)) == Some(CallbackView::Test { chat_id }),
{
    reveal_strlit("setval:");
    reveal_strlit("set:");
    reveal_strlit("test:");
    let t = test_data_text(chat_id as int);
    assert(!has_prefix(t, "setval:"@)) by {
        if has_prefix(t, "setval:"@) {
            assert(t.subrange(0, 7)[0] == t[0]);
        }
    }
    assert(!has_prefix(t, "set:"@)) by {
        if has_prefix(t, "set:"@) {
            assert(t.subrange(0, 4)[0] == t[0]);
        }
    }
    assert(t.subrange(0, 5) =~= "test:"@);
    assert(t.skip(5) =~= int_decimal(chat_id as int));
    lemma_parse_int_decimal(chat_id);
}

// ---------------------------------------------------------------------------
// Menus
// ---------------------------------------------------------------------------

/// A button that sends callback data.
#[derive(Debug, Clone)]
pub struct Button {
    pub label: String,
    pub data: String,
}

pub open spec fn rows_view(rows: Seq<Vec<Button>>) -> Seq<Seq<(Seq<char>, Seq<char>)>> {
    rows.map_values(|r: Vec<Button>| r@.map_values(|b: Button| (b.label@, b.data@)))
}

/// The buttons of the settings menu of `chat_id`, row by row.
pub open spec fn main_menu_rows(chat_id: int) -> Seq<Seq<(Seq<char>, Seq<char>)>> {
    seq![
        seq![
            (BTN_SET_PROVIDER@, open_field_data_text(chat_id, AiField::Provider)),
            (BTN_SET_API_BASE@, open_field_data_text(chat_id, AiField::ApiBase)),
        ],
        seq![
            (BTN_SET_API_KEY@, open_field_data_text(chat_id, AiField::ApiKey)),
            (BTN_SET_MODEL@, open_field_data_text(chat_id, AiField::Model)),
        ],
        seq![
            (BTN_SET_SPAM_MESSAGE_LIMIT@, open_field_data_text(chat_id, AiField::SpamMessageLimit)),
            (BTN_SET_SPAM_WINDOW_HOURS@, open_field_data_text(chat_id, AiField::SpamWindowHours)),
            (
                BTN_SET_SPAM_KICK_THRESHOLD@,
                open_field_data_text(chat_id, AiField::SpamKickThreshold),
            ),
        ],
        seq![(BTN_TEST@, test_data_text(chat_id))],
    ]
}

fn button(label: &str, data: String) -> (b: Button)
    ensures
        b.label@ == label@,
        b.data@ == data@,
{
    Button { label: label.to_owned(), data }
}

/// Builds the buttons of the settings menu of `chat_id`.
pub fn main_menu_keyboard(chat_id: i64) -> (rows: Vec<Vec<Button>>)
    ensures
        rows_view(rows@) == main_menu_rows(chat_id as int),
{
    let mut r1: Vec<Button> = Vec::new();
    r1.push(button(BTN_SET_PROVIDER, open_field_data(chat_id, AiField::Provider)));
    r1.push(button(BTN_SET_API_BASE, open_field_data(chat_id, AiField::ApiBase)));
    let mut r2: Vec<Button> = Vec::new();
    r2.push(button(BTN_SET_API_KEY, open_field_data(chat_id, AiField::ApiKey)));
    r2.push(button(BTN_SET_MODEL, open_field_data(chat_id, AiField::Model)));
    let mut r3: Vec<Button> = Vec::new();
    r3.push(button(BTN_SET_SPAM_MESSAGE_LIMIT, open_field_data(chat_id, AiField::SpamMessageLimit)));
    r3.push(button(BTN_SET_SPAM_WINDOW_HOURS, open_field_data(chat_id, AiField::SpamWindowHours)));
    r3.push(
        button(BTN_SET_SPAM_KICK_THRESHOLD, open_field_data(chat_id, AiField::SpamKickThreshold)),
    );
    let mut r4: Vec<Button> = Vec::new();
    r4.push(button(BTN_TEST, test_data(chat_id)));
    let mut rows: Vec<Vec<Button>> = Vec::new();
    rows.push(r1);
    rows.push(r2);
    rows.push(r3);
    rows.push(r4);
    assert(rows_view(rows@) =~= main_menu_rows(chat_id as int)) by {
        assert(rows_view(rows@)[0] =~= main_menu_rows(chat_id as int)[0]);
        assert(rows_view(rows@)[1] =~= main_menu_rows(chat_id as int)[1]);
        assert(rows_view(rows@)[2] =~= main_menu_rows(chat_id as int)[2]);
        assert(rows_view(rows@)[3] =~= main_menu_rows(chat_id as int)[3]);
    }
    rows
}

/// The provider button at position `k` of the picker of `chat_id`.
pub open spec fn picker_button(chat_id: int, k: int) -> (Seq<char>, Seq<char>) {
    (PROVIDER_BUTTONS@[k].0@, provider_data_text(chat_id, PROVIDER_BUTTONS@[k].1@))
}

/// The provider picker of `chat_id`: the providers in order, two per row.
pub open spec fn picker_rows(chat_id: int) -> Seq<Seq<(Seq<char>, Seq<char>)>> {
    Seq::new(
        5,
        |r: int|
            if r < 4 {
                seq![picker_button(chat_id, 2 * r), picker_button(chat_id, 2 * r + 1)]
            } else {
                seq![picker_button(chat_id, 8)]
            },
    )
}

/// Builds the provider picker of `chat_id`.
pub fn render_provider_picker(chat_id: i64) -> (rows: Vec<Vec<Button>>)
    ensures
        rows_view(rows@) == picker_rows(chat_id as int),
{
    let providers = PROVIDER_BUTTONS;
    assert(providers@ == PROVIDER_BUTTONS@);
    let mut rows: Vec<Vec<Button>> = Vec::new();
    let mut r: usize = 0;
    while r < 5
        invariant
            r <= 5,
            providers@ == PROVIDER_BUTTONS@,
            providers@.len() == 9,
            rows@.len() == r,
            rows_view(rows@) == picker_rows(chat_id as int).take(r as int),
        decreases 5 - r,
    {
        let mut row: Vec<Button> = Vec::new();
        let k = 2 * r;
        let (label, value) = providers[k];
        row.push(button(label, provider_data(chat_id, value)));
        assert(row@.map_values(|b: Button| (b.label@, b.data@))[0] == picker_button(
            chat_id as int,
            k as int,
        ));
        if k + 1 < 9 {
            let (label2, value2) = providers[k + 1];
            row.push(button(label2, provider_data(chat_id, value2)));
            assert(row@.map_values(|b: Button| (b.label@, b.data@))[1] == picker_button(
                chat_id as int,
                k + 1,
            ));
        }
        let ghost expected = picker_rows(chat_id as int)[r as int];
        assert(expected == (if r < 4 {
            seq![picker_button(chat_id as int, 2 * r), picker_button(chat_id as int, 2 * r + 1)]
        } else {
            seq![picker_button(chat_id as int, 8)]
        }));
        assert(row@.map_values(|b: Button| (b.label@, b.data@)) =~= expected);
        let ghost before = rows@;
        rows.push(row);
        assert(rows_view(rows@) =~= picker_rows(chat_id as int).take(r + 1)) by {
            assert(rows@ == before.push(row));
            assert forall|i: int| 0 <= i < r + 1 implies rows_view(rows@)[i]
                == picker_rows(chat_id as int).take(r + 1)[i] by {
                if i < r {
                    assert(rows@[i] == before[i]);
                    assert(rows_view(before)[i] == picker_rows(chat_id as int).take(r as int)[i]);
                }
            }
        }
        r += 1;
    }
    assert(picker_rows(chat_id as int).take(5) =~= picker_rows(chat_id as int));
    rows
}

/// Every provider button reads back as picking its provider.
pub proof fn lemma_picker_buttons_round_trip(chat_id: i64, r: int, c: int)
    requires
        0 <= r < 5,
        0 <= c < picker_rows(chat_id as int)[r].len(),
    ensures
        ({
            let k = 2 * r + c;
            callback_spec(picker_rows(chat_id as int)[r][c].1) == Some(
                CallbackView::SetProvider { chat_id, value: PROVIDER_BUTTONS@[k].1@ },
            )
        }),
{
    let k = 2 * r + c;
    assert(picker_rows(chat_id as int)[r][c] == picker_button(chat_id as int, k));
    lemma_provider_data_round_trip(chat_id, PROVIDER_BUTTONS@[k].1@);
}

/// The text shown for an optional setting.
pub open spec fn shown_field(v: Option<Seq<char>>) -> Seq<char> {
    match v {
        Some(s) => s,
        None => SETTINGS_UNSET@,
    }
}

pub fn display_field(v: Option<&str>) -> (s: String)
    ensures
        s@ == shown_field(
            match v {
                Some(x) => Some(x@),
                None => None,
            },
        ),
{
    match v {
        Some(x) => x.to_owned(),
        None => SETTINGS_UNSET.to_owned(),
    }
}

/// Whether `display_key` can mask `key`: a key longer than 8 bytes is cut 4 bytes from
/// either end, which must fall on character boundaries.
pub open spec fn key_maskable(key: Seq<char>) -> bool {
    let b = encode_utf8(key);
    b.len() > 8 ==> is_char_boundary(b, 4) && is_char_boundary(b, b.len() - 4)
}

/// Whether `display_key` can mask `key` (see [`key_maskable`]).
pub fn is_key_maskable(key: &str) -> (b: bool)
    ensures
        b == key_maskable(key@),
{
    let len = key.as_bytes().len();
    len <= 8 || (key.is_char_boundary(4) && key.is_char_boundary(len - 4))
}

/// How an API key is shown: `***` when it is at most 8 bytes long, else its first and last
/// 4 bytes around `...`.
pub open spec fn masked_key(key: Seq<char>) -> Seq<char> {
    let b = encode_utf8(key);
    if b.len() <= 8 {
        "***"@
    } else {
        decode_utf8(b.subrange(0, 4)) + "..."@ + decode_utf8(b.subrange(b.len() - 4, b.len() as int))
    }
}

/// Shows a configured API key without giving it away.
pub fn display_key(v: Option<&str>) -> (s: String)
    requires
        v matches Some(k) ==> key_maskable(k@),
    ensures
        s@ == (match v {
            Some(k) => masked_key(k@),
            None => SETTINGS_UNSET@,
        }),
{
    broadcast use {vstd::utf8::encode_utf8_decode_utf8, vstd::utf8::encode_utf8_valid_utf8};

    match v {
        None => SETTINGS_UNSET.to_owned(),
        Some(k) => {
            let len = k.as_bytes().len();
            if len <= 8 {
                "***".to_owned()
            } else {
                let (head, _) = k.split_at(4);
                let (_, tail) = k.split_at(len - 4);
                assert(head@ == decode_utf8(encode_utf8(head@)));
                assert(tail@ == decode_utf8(encode_utf8(tail@)));
                let mut s = String::new();
                push_str(&mut s, head);
                push_str(&mut s, "...");
                push_str(&mut s, tail);
                s
            }
        },
    }
}

/// The values shown in the menu text of a configuration. The delete and kick scores are
/// not among them: their placeholders stay in the text as written.
pub open spec fn menu_pairs(chat_id: int, cfg: AiConfig) -> Seq<(Seq<char>, Seq<char>)> {
    seq![
        ("chat"@, int_decimal(chat_id)),
        ("provider"@, shown_field(crate::group::text_of(cfg.provider))),
        ("base"@, shown_field(crate::group::text_of(cfg.api_base))),
        ("key"@, match cfg.api_key {
            Some(k) => masked_key(k@),
            None => SETTINGS_UNSET@,
        }),
        ("model"@, shown_field(crate::group::text_of(cfg.model))),
        ("limit"@, int_decimal(
            crate::group::or_default(
                cfg.spam_check_message_limit,
                crate::group::DEFAULT_SPAM_CHECK_MESSAGE_LIMIT,
            ) as int,
        )),
        ("window_hours"@, int_decimal(
            crate::group::or_default(
                cfg.spam_check_window_hours,
                crate::group::DEFAULT_SPAM_CHECK_WINDOW_HOURS,
            ) as int,
        )),
        ("kick_threshold"@, int_decimal(
            crate::group::or_default(
                cfg.spam_kick_threshold,
                crate::group::DEFAULT_SPAM_KICK_THRESHOLD,
            ) as int,
        )),
    ]
}

fn opt_str(v: &Option<String>) -> (r: Option<&str>)
    ensures
        match r {
            Some(x) => v matches Some(s) && x@ == s@,
            None => v is None,
        },
{
    match v {
        Some(s) => Some(s.as_str()),
        None => None,
    }
}

/// The text of the settings menu of `chat_id` with configuration `cfg`.
pub fn main_menu_text(chat_id: i64, cfg: &AiConfig) -> (s: String)
    requires
        cfg.api_key matches Some(k) ==> key_maskable(k@),
    ensures
        s@ == fill_text(SETTINGS_AI_CONFIG_TEMPLATE@, menu_pairs(chat_id as int, *cfg)),
{
    let chat = crate::chars::i64_to_string(chat_id);
    let provider = display_field(opt_str(&cfg.provider));
    let base = display_field(opt_str(&cfg.api_base));
    let key = display_key(opt_str(&cfg.api_key));
    let model = display_field(opt_str(&cfg.model));
    let limit = crate::chars::i64_to_string(cfg.spam_check_message_limit());
    let window = crate::chars::i64_to_string(cfg.spam_check_window_hours());
    let kick = crate::chars::i64_to_string(cfg.spam_kick_threshold());
    let pairs = [
        ("chat", chat.as_str()),
        ("provider", provider.as_str()),
        ("base", base.as_str()),
        ("key", key.as_str()),
        ("model", model.as_str()),
        ("limit", limit.as_str()),
        ("window_hours", window.as_str()),
        ("kick_threshold", kick.as_str()),
    ];
    let s = fill(SETTINGS_AI_CONFIG_TEMPLATE, &pairs);
    assert(pairs_view(pairs@) =~= menu_pairs(chat_id as int, *cfg));
    s
}

// ---------------------------------------------------------------------------
// Prompts and replies
// ---------------------------------------------------------------------------

/// The toast shown when a provider button is pressed.
pub fn provider_toast(value: &str) -> (s: String)
    ensures
        s@ == SETTINGS_PROVIDER_SELECTED_PREFIX@ + value@,
{
    let mut s = String::new();
    push_str(&mut s, SETTINGS_PROVIDER_SELECTED_PREFIX);
    push_str(&mut s, value);
    s
}

/// The question asked for a field typed in by the administrator.
pub open spec fn prompt_body(field: AiField) -> Seq<char> {
    match field {
        AiField::Provider => SETTINGS_PROMPT_PICK_PROVIDER@,
        AiField::ApiBase => SETTINGS_PROMPT_API_BASE@,
        AiField::ApiKey => SETTINGS_PROMPT_API_KEY@,
        AiField::Model => SETTINGS_PROMPT_MODEL@,
        AiField::SpamMessageLimit => SETTINGS_PROMPT_SPAM_MESSAGE_LIMIT@,
        AiField::SpamWindowHours => SETTINGS_PROMPT_SPAM_WINDOW_HOURS@,
        AiField::SpamKickThreshold => SETTINGS_PROMPT_SPAM_KICK_THRESHOLD@,
    }
}

/// How the bot asks for a field's new value.
#[derive(Debug, Clone)]
pub enum FieldPrompt {
    /// A message with the provider buttons.
    ProviderPicker { text: String, keyboard: Vec<Vec<Button>> },
    /// A message that asks for a reply; it ends with the marker of the target.
    ForceReply { text: String },
}

/// The prompt for a target: the provider picker for the provider, otherwise the field's
/// question followed by the marker that a reply carries back.
pub fn open_field_prompt(target: SettingsTarget) -> (p: FieldPrompt)
    ensures
        match p {
            FieldPrompt::ProviderPicker { text, keyboard } => target.field == AiField::Provider
                && text@ == SETTINGS_PROMPT_PICK_PROVIDER@ && rows_view(keyboard@) == picker_rows(
                target.chat_id as int,
            ),
            FieldPrompt::ForceReply { text } => target.field != AiField::Provider && text@
                == prompt_body(target.field) + settings_tag_text(
                target.chat_id as int,
                ai_field_tag(target.field),
            ),
        },
{
    match target.field {
        AiField::Provider => FieldPrompt::ProviderPicker {
            text: SETTINGS_PROMPT_PICK_PROVIDER.to_owned(),
            keyboard: render_provider_picker(target.chat_id),
        },
        _ => {
            let body = match target.field {
                AiField::ApiBase => SETTINGS_PROMPT_API_BASE,
                AiField::ApiKey => SETTINGS_PROMPT_API_KEY,
                AiField::Model => SETTINGS_PROMPT_MODEL,
                AiField::SpamMessageLimit => SETTINGS_PROMPT_SPAM_MESSAGE_LIMIT,
                AiField::SpamWindowHours => SETTINGS_PROMPT_SPAM_WINDOW_HOURS,
                _ => SETTINGS_PROMPT_SPAM_KICK_THRESHOLD,
            };
            let mut text = String::new();
            push_str(&mut text, body);
            let tag = settings_tag(target.chat_id, target.field.tag());
            push_str(&mut text, tag.as_str());
            FieldPrompt::ForceReply { text }
        },
    }
}

/// A reply to a prompt names the prompt's target again.
pub proof fn lemma_prompt_reply_names_target(target: SettingsTarget)
    requires
        target.field != AiField::Provider,
    ensures
        tag_spec(
            prompt_body(target.field) + settings_tag_text(
                target.chat_id as int,
                ai_field_tag(target.field),
            ),
        ) == Some(target),
{
    lemma_prompt_marker_names_target(prompt_body(target.field), target.chat_id, target.field);
}

/// Whether a (trimmed) value is acceptable for a field: counts must be positive integers.
pub open spec fn value_valid(field: AiField, value: Seq<char>) -> bool {
    if is_numeric_field(field) {
        parse_i64_spec(value) matches Some(n) && n > 0
    } else {
        true
    }
}

pub fn validate_settings_value(field: AiField, value: &str) -> (b: bool)
    ensures
        b == value_valid(field, value@),
{
    match field {
        AiField::SpamMessageLimit | AiField::SpamWindowHours | AiField::SpamKickThreshold => {
            match crate::chars::parse_i64(value) {
                Some(n) => n > 0,
                None => false,
            }
        },
        _ => true,
    }
}

/// What becomes of an administrator's reply to a prompt.
#[derive(Debug, Clone, PartialEq, Eq)]
pub enum ReplyOutcome {
    /// The reply is refused; the text tells why.
    Rejected(&'static str),
    /// The trimmed reply is stored as the field's value.
    Store(String),
}

pub enum ReplyOutcomeView {
    Rejected(Seq<char>),
    Store(Seq<char>),
}

impl View for ReplyOutcome {
    type V = ReplyOutcomeView;

    open spec fn view(&self) -> ReplyOutcomeView {
        match self {
            ReplyOutcome::Rejected(m) => ReplyOutcomeView::Rejected(m@),
            ReplyOutcome::Store(v) => ReplyOutcomeView::Store(v@),
        }
    }
}

/// The value a reply carries: its text, trimmed (an empty one for a reply without text).
pub open spec fn reply_value(text: Option<Seq<char>>) -> Seq<char> {
    trim(
        match text {
            Some(t) => t,
            None => Seq::empty(),
        },
    )
}

/// The fate of a reply with text `text` to the prompt for `field`, given whether the
/// trimmed text parses as a URL: empty replies, unparsable API URLs and non-positive
/// counts are refused, in that order; anything else is stored trimmed.
pub open spec fn reply_outcome_spec(field: AiField, text: Option<Seq<char>>, url_ok: bool) -> ReplyOutcomeView {
    let v = trim(
        match text {
            Some(t) => t,
            None => Seq::empty(),
        },
    );
    if v.len() == 0 {
        ReplyOutcomeView::Rejected(SETTINGS_EMPTY_VALUE@)
    } else if field == AiField::ApiBase && !url_ok {
        ReplyOutcomeView::Rejected(SETTINGS_INVALID_URL@)
    } else if !value_valid(field, v) {
        ReplyOutcomeView::Rejected(SETTINGS_INVALID_NUMBER@)
    } else {
        ReplyOutcomeView::Store(v)
    }
}

/// What the dialogue stores is usable: never an empty text, an API URL only when the URL
/// parser accepted it, and for the three counts a positive number, which is what the
/// configuration then holds.
pub proof fn lemma_stored_values_valid(field: AiField, text: Option<Seq<char>>, url_ok: bool)
    ensures
        reply_outcome_spec(field, text, url_ok) matches ReplyOutcomeView::Store(v) ==> {
            &&& v.len() > 0
            &&& v == trim(v)
            &&& field == AiField::ApiBase ==> url_ok
            &&& is_numeric_field(field) ==> (crate::group::stored_count(Some(v)) matches Some(n)
                && n > 0)
        },
{
    crate::chars::lemma_trim_idempotent(
        match text {
            Some(t) => t,
            None => Seq::empty(),
        },
    );
}

/// Only the API URL goes through the URL check. For every other field the URL check has no
/// say: an empty reply is refused, a count must be a positive number, and any other reply
/// is stored, trimmed. An API URL is stored exactly when it is not empty and the parser
/// accepted it.
pub proof fn lemma_only_api_base_is_url_checked(field: AiField, text: Option<Seq<char>>, url_ok: bool)
    ensures
        field != AiField::ApiBase ==> reply_outcome_spec(field, text, url_ok)
            == reply_outcome_spec(field, text, !url_ok),
        reply_value(text).len() == 0 ==> reply_outcome_spec(field, text, url_ok)
            == ReplyOutcomeView::Rejected(SETTINGS_EMPTY_VALUE@),
        reply_value(text).len() > 0 && field != AiField::ApiBase && value_valid(
            field,
            reply_value(text),
        ) ==> reply_outcome_spec(field, text, url_ok) == ReplyOutcomeView::Store(
            reply_value(text),
        ),
        reply_value(text).len() > 0 && field != AiField::ApiBase && !value_valid(
            field,
            reply_value(text),
        ) ==> reply_outcome_spec(field, text, url_ok) == ReplyOutcomeView::Rejected(
            SETTINGS_INVALID_NUMBER@,
        ),
        reply_value(text).len() > 0 && field == AiField::ApiBase ==> reply_outcome_spec(
            field,
            text,
            url_ok,
        ) == (if url_ok {
            ReplyOutcomeView::Store(reply_value(text))
        } else {
            ReplyOutcomeView::Rejected(SETTINGS_INVALID_URL@)
        }),
{
}

/// Decides a reply to the prompt for `field`, given whether its trimmed text is a URL.
pub fn settings_reply_outcome(field: AiField, text: Option<&str>, url_ok: bool) -> (r: ReplyOutcome)
    ensures
        r@ == reply_outcome_spec(
            field,
            match text {
                Some(t) => Some(t@),
                None => None,
            },
            url_ok,
        ),
        field != AiField::ApiBase ==> r@ == reply_outcome_spec(
            field,
            match text {
                Some(t) => Some(t@),
                None => None,
            },
            true,
        ),
        ({
            let v = reply_value(
                match text {
                    Some(t) => Some(t@),
                    None => None,
                },
            );
            v.len() > 0 && field != AiField::ApiBase && value_valid(field, v) ==> r@
                == ReplyOutcomeView::Store(v)
        }),
{
    let v = match text {
        Some(t) => crate::chars::trim_str(t),
        None => String::new(),
    };
    proof {
        if text is None {
            assert(trim(Seq::<char>::empty()) == Seq::<char>::empty());
        }
    }
    if v.as_str().is_empty() {
        ReplyOutcome::Rejected(SETTINGS_EMPTY_VALUE)
    } else if field == AiField::ApiBase && !url_ok {
        ReplyOutcome::Rejected(SETTINGS_INVALID_URL)
    } else if !validate_settings_value(field, v.as_str()) {
        ReplyOutcome::Rejected(SETTINGS_INVALID_NUMBER)
    } else {
        ReplyOutcome::Store(v)
    }
}

/// Whether `url::Url::parse` accepts the text.
pub uninterp spec fn url_parse_ok(s: Seq<char>) -> bool;

/// `url::Url::parse(s).is_ok()`. The contract names the outcome, which depends on the
/// text alone; what the URL standard accepts is not restated here.
#[verifier::external_body]
fn url_parses(s: &str) -> (b: bool)
    ensures
        b == url_parse_ok(s@),
{
    url::Url::parse(s).is_ok()
}

/// Decides a reply to the prompt for `field`; an API URL is checked with the URL parser.
pub fn check_settings_reply(field: AiField, text: Option<&str>) -> (r: ReplyOutcome)
    ensures
        r@ == reply_outcome_spec(
            field,
            match text {
                Some(t) => Some(t@),
                None => None,
            },
            url_parse_ok(
                trim(
                    match text {
                        Some(t) => t@,
                        None => Seq::empty(),
                    },
                ),
            ),
        ),
        ({
            let v = reply_value(
                match text {
                    Some(t) => Some(t@),
                    None => None,
                },
            );
            v.len() > 0 && field != AiField::ApiBase && value_valid(field, v) ==> r@
                == ReplyOutcomeView::Store(v)
        }),
{
    let v = match text {
        Some(t) => crate::chars::trim_str(t),
        None => String::new(),
    };
    proof {
        if text is None {
            assert(trim(Seq::<char>::empty()) == Seq::<char>::empty());
        }
    }
    let url_ok = if field == AiField::ApiBase {
        url_parses(v.as_str())
    } else {
        true
    };
    settings_reply_outcome(field, text, url_ok)
}

/// Whether a message replies to a message sent by the bot.
pub fn is_reply_to_this_bot(replied_from: Option<u64>, bot_user_id: u64) -> (b: bool)
    ensures
        b == (replied_from == Some(bot_user_id)),
{
    match replied_from {
        Some(id) => id == bot_user_id,
        None => false,
    }
}

/// The text shown with the answer to a button press: the chosen provider for a
/// provider button, a note that the test runs for the test button, and nothing for a
/// field button or data that names no action.
pub open spec fn callback_toast_text(action: Option<CallbackView>) -> Option<Seq<char>> {
    match action {
        Some(CallbackView::SetProvider { value, .. }) => Some(
            SETTINGS_PROVIDER_SELECTED_PREFIX@ + value,
        ),
        Some(CallbackView::Test { .. }) => Some(SETTINGS_TEST_PENDING@),
        _ => None,
    }
}

/// The text to answer a button press with, `None` for a plain answer.
pub fn callback_toast(action: &Option<CallbackAction>) -> (t: Option<String>)
    ensures
        match t {
            Some(s) => callback_toast_text(opt_callback_view(*action)) == Some(s@),
            None => callback_toast_text(opt_callback_view(*action)) is None,
        },
{
    match action {
        Some(CallbackAction::SetProvider { value, .. }) => Some(provider_toast(value.as_str())),
        Some(CallbackAction::Test { .. }) => Some(SETTINGS_TEST_PENDING.to_string()),
        _ => None,
    }
}

/// The message that reports a test call: success, or the failure with its reason.
pub open spec fn test_result_text(r: Result<i64, AiError>) -> Seq<char> {
    match r {
        Ok(_) => SETTINGS_TEST_OK@,
        Err(e) => SETTINGS_TEST_FAILED_PREFIX@ + error_text(e),
    }
}

/// Reports the outcome of a test call to the administrator who asked for it.
pub fn test_result_message(r: &Result<i64, AiError>) -> (s: String)
    ensures
        s@ == test_result_text(*r),
{
    match r {
        Ok(_) => SETTINGS_TEST_OK.to_string(),
        Err(e) => {
            let mut s = String::new();
            push_str(&mut s, SETTINGS_TEST_FAILED_PREFIX);
            let m = e.message();
            push_str(&mut s, m.as_str());
            s
        },
    }
}

} // verus!
