//! A group's verification settings and its AI spam-check configuration.
use vstd::prelude::*;

use crate::chars::{parse_i64, parse_i64_spec};

verus! {

/// Verification timeout of a newly enabled group, in seconds.
pub const DEFAULT_TIMEOUT_SECONDS: i64 = 600;

/// How many messages of a newly verified member are checked when nothing is configured.
pub const DEFAULT_SPAM_CHECK_MESSAGE_LIMIT: i64 = 3;

/// For how many hours after verification messages are checked when nothing is configured.
pub const DEFAULT_SPAM_CHECK_WINDOW_HOURS: i64 = 24;

/// How many deleted messages get a member kicked when nothing is configured.
pub const DEFAULT_SPAM_KICK_THRESHOLD: i64 = 2;

/// Score from which a message is deleted when nothing is configured. The value is this
/// library's own choice; no settings field sets it.
pub const DEFAULT_SPAM_DELETE_SCORE: i64 = 80;

/// Score from which the sender is kicked at once when nothing is configured. The value is
/// this library's own choice; no settings field sets it.
pub const DEFAULT_SPAM_KICK_SCORE: i64 = 95;

/// A group's stored settings.
#[derive(Debug, Clone, PartialEq, Eq)]
pub struct Group {
    pub chat_id: i64,
    pub enabled: bool,
    pub timeout_seconds: i64,
    pub welcome_text: Option<String>,
    pub button_label: Option<String>,
    pub created_at: i64,
    pub updated_at: i64,
    /// The serialized [`AiConfig`], if one was ever saved.
    pub ai_config: Option<String>,
}

/// A field of the AI configuration that an administrator can set.
#[derive(Debug, Clone, Copy, PartialEq, Eq, Structural)]
pub enum AiField {
    Provider,
    ApiBase,
    ApiKey,
    Model,
    SpamMessageLimit,
    SpamWindowHours,
    SpamKickThreshold,
}

/// The field a tag names: each field has a short tag and, except the provider, a long one.
pub open spec fn ai_field_spec(s: Seq<char>) -> Option<AiField> {
    if s == "provider"@ {
        Some(AiField::Provider)
    } else if s == "url"@ || s == "api_base"@ {
        Some(AiField::ApiBase)
    } else if s == "key"@ || s == "api_key"@ {
        Some(AiField::ApiKey)
    } else if s == "model"@ {
        Some(AiField::Model)
    } else if s == "limit"@ || s == "spam_message_limit"@ {
        Some(AiField::SpamMessageLimit)
    } else if s == "window"@ || s == "spam_window_hours"@ {
        Some(AiField::SpamWindowHours)
    } else if s == "kick"@ || s == "spam_kick_threshold"@ {
        Some(AiField::SpamKickThreshold)
    } else {
        None
    }
}

/// The short tag of a field, as callback data and prompt markers carry it.
pub open spec fn ai_field_tag(f: AiField) -> Seq<char> {
    match f {
        AiField::Provider => "provider"@,
        AiField::ApiBase => "url"@,
        AiField::ApiKey => "key"@,
        AiField::Model => "model"@,
        AiField::SpamMessageLimit => "limit"@,
        AiField::SpamWindowHours => "window"@,
        AiField::SpamKickThreshold => "kick"@,
    }
}

/// Whether the field holds a count rather than a text.
pub open spec fn is_numeric_field(f: AiField) -> bool {
    match f {
        AiField::SpamMessageLimit | AiField::SpamWindowHours | AiField::SpamKickThreshold => true,
        _ => false,
    }
}

impl AiField {
    /// The field named by `s`.
    pub fn parse(s: &str) -> (r: Option<AiField>)
        ensures
            r == ai_field_spec(s@),
    {
        let eq = |t: &str| -> (b: bool)
            ensures
                b == (s@ == t@),
            { crate::chars::str_eq(s, t) };
        if eq("provider") {
            Some(AiField::Provider)
        } else if eq("url") || eq("api_base") {
            Some(AiField::ApiBase)
        } else if eq("key") || eq("api_key") {
            Some(AiField::ApiKey)
        } else if eq("model") {
            Some(AiField::Model)
        } else if eq("limit") || eq("spam_message_limit") {
            Some(AiField::SpamMessageLimit)
        } else if eq("window") || eq("spam_window_hours") {
            Some(AiField::SpamWindowHours)
        } else if eq("kick") || eq("spam_kick_threshold") {
            Some(AiField::SpamKickThreshold)
        } else {
            None
        }
    }

    /// The short tag of the field.
    pub fn tag(self) -> (t: &'static str)
        ensures
            t@ == ai_field_tag(self),
    {
        match self {
            AiField::Provider => "provider",
            AiField::ApiBase => "url",
            AiField::ApiKey => "key",
            AiField::Model => "model",
            AiField::SpamMessageLimit => "limit",
            AiField::SpamWindowHours => "window",
            AiField::SpamKickThreshold => "kick",
        }
    }
}

/// A field's tag names that field again.
pub proof fn lemma_tag_parses_back(f: AiField)
    ensures
        ai_field_spec(ai_field_tag(f)) == Some(f),
{
    reveal_strlit("provider");
    reveal_strlit("url");
    reveal_strlit("api_base");
    reveal_strlit("key");
    reveal_strlit("api_key");
    reveal_strlit("model");
    reveal_strlit("limit");
    reveal_strlit("spam_message_limit");
    reveal_strlit("window");
    reveal_strlit("spam_window_hours");
    reveal_strlit("kick");
    reveal_strlit("spam_kick_threshold");
    let t = ai_field_tag(f);
    assert(t.len() != "provider"@.len() || t =~= "provider"@);
    match f {
        AiField::Provider => {},
        AiField::ApiBase => {
            assert(t =~= "url"@);
        },
        AiField::ApiKey => {
            assert(t != "url"@) by {
                assert(t[0] != "url"@[0]);
            }
            assert(t != "api_base"@);
        },
        AiField::Model => {
            assert(t != "api_base"@);
            assert(t != "spam_message_limit"@);
            assert(t != "api_key"@);
        },
        AiField::SpamMessageLimit => {
            assert(t != "api_base"@);
            assert(t != "model"@) by {
                assert(t[0] != "model"@[0]);
            }
            assert(t != "api_key"@);
            assert(t != "key"@);
            assert(t != "url"@);
        },
        AiField::SpamWindowHours => {
            assert(t != "model"@) by {
                assert(t[0] != "model"@[0]);
            }
            assert(t != "limit"@) by {
                assert(t[0] != "limit"@[0]);
            }
            assert(t != "api_base"@);
            assert(t != "api_key"@);
            assert(t != "url"@);
            assert(t != "key"@);
            assert(t != "spam_message_limit"@);
        },
        AiField::SpamKickThreshold => {
            assert(t != "url"@) by {
                assert(t[0] != "url"@[0]);
            }
            assert(t != "model"@);
            assert(t != "limit"@);
            assert(t != "api_base"@);
            assert(t != "api_key"@);
            assert(t != "window"@);
            assert(t != "spam_message_limit"@);
            assert(t != "spam_window_hours"@);
        },
    }
}

/// The AI spam-check configuration of a group. Unset numbers fall back to defaults.
#[derive(Debug, Clone, Default, PartialEq, Eq)]
pub struct AiConfig {
    pub provider: Option<String>,
    pub api_base: Option<String>,
    pub api_key: Option<String>,
    pub model: Option<String>,
    pub spam_check_message_limit: Option<i64>,
    pub spam_check_window_hours: Option<i64>,
    pub spam_kick_threshold: Option<i64>,
    pub spam_delete_score: Option<i64>,
    pub spam_kick_score: Option<i64>,
}

pub open spec fn or_default(v: Option<i64>, d: i64) -> i64 {
    match v {
        Some(x) => x,
        None => d,
    }
}

pub open spec fn text_of(v: Option<String>) -> Option<Seq<char>> {
    match v {
        Some(s) => Some(s@),
        None => None,
    }
}

/// The value that setting a field to `value` stores: texts as given, counts as parsed
/// (a count that does not parse is cleared).
pub open spec fn stored_count(value: Option<Seq<char>>) -> Option<i64> {
    match value {
        Some(v) => parse_i64_spec(v),
        None => None,
    }
}

impl AiConfig {
    /// An empty configuration: nothing set.
    pub fn empty() -> (c: AiConfig)
        ensures
            c.provider is None && c.api_base is None && c.api_key is None && c.model is None,
            c.spam_check_message_limit is None && c.spam_check_window_hours is None,
            c.spam_kick_threshold is None && c.spam_delete_score is None && c.spam_kick_score
                is None,
    {
        AiConfig {
            provider: None,
            api_base: None,
            api_key: None,
            model: None,
            spam_check_message_limit: None,
            spam_check_window_hours: None,
            spam_kick_threshold: None,
            spam_delete_score: None,
            spam_kick_score: None,
        }
    }

    /// Whether provider, API base, API key and model are all set.
    pub open spec fn is_ready(&self) -> bool {
        self.provider is Some && self.api_base is Some && self.api_key is Some && self.model is Some
    }

    /// Provider, API base, API key and model, when all four are set.
    pub fn ready(&self) -> (r: Option<(&str, &str, &str, &str)>)
        ensures
            r is Some <==> self.is_ready(),
            r matches Some(t) ==> t.0@ == self.provider->0@ && t.1@ == self.api_base->0@ && t.2@
                == self.api_key->0@ && t.3@ == self.model->0@,
    {
        match (&self.provider, &self.api_base, &self.api_key, &self.model) {
            (Some(p), Some(b), Some(k), Some(m)) => Some((p.as_str(), b.as_str(), k.as_str(), m.as_str())),
            _ => None,
        }
    }

    pub fn spam_check_message_limit(&self) -> (n: i64)
        ensures
            n == or_default(self.spam_check_message_limit, DEFAULT_SPAM_CHECK_MESSAGE_LIMIT),
    {
        match self.spam_check_message_limit {
            Some(n) => n,
            None => DEFAULT_SPAM_CHECK_MESSAGE_LIMIT,
        }
    }

    pub fn spam_check_window_hours(&self) -> (n: i64)
        ensures
            n == or_default(self.spam_check_window_hours, DEFAULT_SPAM_CHECK_WINDOW_HOURS),
    {
        match self.spam_check_window_hours {
            Some(n) => n,
            None => DEFAULT_SPAM_CHECK_WINDOW_HOURS,
        }
    }

    pub fn spam_kick_threshold(&self) -> (n: i64)
        ensures
            n == or_default(self.spam_kick_threshold, DEFAULT_SPAM_KICK_THRESHOLD),
    {
        match self.spam_kick_threshold {
            Some(n) => n,
            None => DEFAULT_SPAM_KICK_THRESHOLD,
        }
    }

    pub fn spam_delete_score(&self) -> (n: i64)
        ensures
            n == or_default(self.spam_delete_score, DEFAULT_SPAM_DELETE_SCORE),
    {
        match self.spam_delete_score {
            Some(n) => n,
            None => DEFAULT_SPAM_DELETE_SCORE,
        }
    }

    pub fn spam_kick_score(&self) -> (n: i64)
        ensures
            n == or_default(self.spam_kick_score, DEFAULT_SPAM_KICK_SCORE),
    {
        match self.spam_kick_score {
            Some(n) => n,
            None => DEFAULT_SPAM_KICK_SCORE,
        }
    }

    /// The configuration with `field` set to `value` (or cleared), all else unchanged.
    pub fn with_field(self, field: AiField, value: Option<&str>) -> (c: AiConfig)
        ensures
            text_of(c.provider) == (if field == AiField::Provider {
                match value {
                    Some(v) => Some(v@),
                    None => None,
                }
            } else {
                text_of(self.provider)
            }),
            text_of(c.api_base) == (if field == AiField::ApiBase {
                match value {
                    Some(v) => Some(v@),
                    None => None,
                }
            } else {
                text_of(self.api_base)
            }),
            text_of(c.api_key) == (if field == AiField::ApiKey {
                match value {
                    Some(v) => Some(v@),
                    None => None,
                }
            } else {
                text_of(self.api_key)
            }),
            text_of(c.model) == (if field == AiField::Model {
                match value {
                    Some(v) => Some(v@),
                    None => None,
                }
            } else {
                text_of(self.model)
            }),
            c.spam_check_message_limit == (if field == AiField::SpamMessageLimit {
                stored_count(
                    match value {
                        Some(v) => Some(v@),
                        None => None,
                    },
                )
            } else {
                self.spam_check_message_limit
            }),
            c.spam_check_window_hours == (if field == AiField::SpamWindowHours {
                stored_count(
                    match value {
                        Some(v) => Some(v@),
                        None => None,
                    },
                )
            } else {
                self.spam_check_window_hours
            }),
            c.spam_kick_threshold == (if field == AiField::SpamKickThreshold {
                stored_count(
                    match value {
                        Some(v) => Some(v@),
                        None => None,
                    },
                )
            } else {
                self.spam_kick_threshold
            }),
            c.spam_delete_score == self.spam_delete_score,
            c.spam_kick_score == self.spam_kick_score,
    {
        let mut c = self;
        let text: Option<String> = match value {
            Some(v) => Some(v.to_owned()),
            None => None,
        };
        let count: Option<i64> = match value {
            Some(v) => parse_i64(v),
            None => None,
        };
        match field {
            AiField::Provider => c.provider = text,
            AiField::ApiBase => c.api_base = text,
            AiField::ApiKey => c.api_key = text,
            AiField::Model => c.model = text,
            AiField::SpamMessageLimit => c.spam_check_message_limit = count,
            AiField::SpamWindowHours => c.spam_check_window_hours = count,
            AiField::SpamKickThreshold => c.spam_kick_threshold = count,
        }
        c
    }
}

} // verus!
