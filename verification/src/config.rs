//! Process configuration, read through a variable lookup.
use vstd::prelude::*;

verus! {

/// The bot's settings.
#[derive(Debug, Clone, PartialEq, Eq)]
pub struct Config {
    pub bot_token: String,
    pub database_url: String,
    pub public_url: String,
    pub listen_addr: String,
}

/// Why no configuration could be built.
#[derive(Debug, PartialEq, Eq)]
pub enum ConfigError {
    /// A required variable is not set.
    Missing(&'static str),
    /// A variable is set to an unusable value.
    Invalid { name: &'static str, reason: &'static str },
}

pub struct ConfigView {
    pub bot_token: Seq<char>,
    pub database_url: Seq<char>,
    pub public_url: Seq<char>,
    pub listen_addr: Seq<char>,
}

pub enum ConfigErrorView {
    Missing(Seq<char>),
    Invalid { name: Seq<char>, reason: Seq<char> },
}

impl View for Config {
    type V = ConfigView;

    open spec fn view(&self) -> ConfigView {
        ConfigView {
            bot_token: self.bot_token@,
            database_url: self.database_url@,
            public_url: self.public_url@,
            listen_addr: self.listen_addr@,
        }
    }
}

impl View for ConfigError {
    type V = ConfigErrorView;

    open spec fn view(&self) -> ConfigErrorView {
        match self {
            ConfigError::Missing(n) => ConfigErrorView::Missing(n@),
            ConfigError::Invalid { name, reason } => ConfigErrorView::Invalid {
                name: name@,
                reason: reason@,
            },
        }
    }
}

pub const DEFAULT_DATABASE_URL: &'static str = "sqlite:anubot.sqlite";

pub const DEFAULT_LISTEN_ADDR: &'static str = "127.0.0.1:8080";

pub const BOT_TOKEN_VAR: &'static str = "BOT_TOKEN";

pub const PUBLIC_URL_VAR: &'static str = "PUBLIC_URL";

pub const DATABASE_URL_VAR: &'static str = "DATABASE_URL";

pub const LISTEN_ADDR_VAR: &'static str = "LISTEN_ADDR";

pub const MUST_NOT_BE_EMPTY: &'static str = "must not be empty";

pub open spec fn opt_view(o: Option<String>) -> Option<Seq<char>> {
    match o {
        Some(s) => Some(s@),
        None => None,
    }
}

/// The configuration that the values of `BOT_TOKEN`, `PUBLIC_URL`, `DATABASE_URL` and
/// `LISTEN_ADDR` give: the first two are required and must not be empty; the other two
/// fall back to their defaults.
pub open spec fn config_spec(
    token: Option<Seq<char>>,
    public: Option<Seq<char>>,
    database: Option<Seq<char>>,
    listen: Option<Seq<char>>,
) -> Result<ConfigView, ConfigErrorView> {
    match token {
        None => Err(ConfigErrorView::Missing(BOT_TOKEN_VAR@)),
        Some(t) => if t.len() == 0 {
            Err(ConfigErrorView::Invalid { name: BOT_TOKEN_VAR@, reason: MUST_NOT_BE_EMPTY@ })
        } else {
            match public {
                None => Err(ConfigErrorView::Missing(PUBLIC_URL_VAR@)),
                Some(p) => if p.len() == 0 {
                    Err(
                        ConfigErrorView::Invalid {
                            name: PUBLIC_URL_VAR@,
                            reason: MUST_NOT_BE_EMPTY@,
                        },
                    )
                } else {
                    Ok(
                        ConfigView {
                            bot_token: t,
                            database_url: match database {
                                Some(d) => d,
                                None => DEFAULT_DATABASE_URL@,
                            },
                            public_url: p,
                            listen_addr: match listen {
                                Some(l) => l,
                                None => DEFAULT_LISTEN_ADDR@,
                            },
                        },
                    )
                },
            }
        },
    }
}

pub open spec fn result_view(r: Result<Config, ConfigError>) -> Result<ConfigView, ConfigErrorView> {
    match r {
        Ok(c) => Ok(c@),
        Err(e) => Err(e@),
    }
}

pub open spec fn set_and_nonempty(o: Option<String>) -> bool {
    match o {
        Some(s) => s@.len() > 0,
        None => false,
    }
}

/// Whether the lookup `get` can give `t`, `p`, `d`, `l` for the four variables, as far as
/// `from_getter` asks for them: `PUBLIC_URL` only once `BOT_TOKEN` is set and not empty,
/// and the last two only once both are.
pub open spec fn lookups_give<F: Fn(&str) -> Option<String>>(
    get: F,
    t: Option<String>,
    p: Option<String>,
    d: Option<String>,
    l: Option<String>,
) -> bool {
    &&& call_ensures(get, (BOT_TOKEN_VAR,), t)
    &&& set_and_nonempty(t) ==> call_ensures(get, (PUBLIC_URL_VAR,), p)
    &&& (set_and_nonempty(t) && set_and_nonempty(p)) ==> {
        &&& call_ensures(get, (DATABASE_URL_VAR,), d)
        &&& call_ensures(get, (LISTEN_ADDR_VAR,), l)
    }
}

impl Config {
    /// Builds the configuration from the variables that `get` looks up.
    pub fn from_getter<F>(get: F) -> (res: Result<Self, ConfigError>) where
        F: Fn(&str) -> Option<String>,

        requires
            forall|k: &str| call_requires(get, (k,)),
        ensures
            exists|t: Option<String>, p: Option<String>, d: Option<String>, l: Option<String>|
                #![trigger lookups_give(get, t, p, d, l)]
                lookups_give(get, t, p, d, l) && result_view(res) == config_spec(
                    opt_view(t),
                    opt_view(p),
                    opt_view(d),
                    opt_view(l),
                ),
    {
        let t = get(BOT_TOKEN_VAR);
        let bot_token = match t {
            None => {
                assert(lookups_give(get, None, None, None, None));
                return Err(ConfigError::Missing(BOT_TOKEN_VAR));
            },
            Some(s) => s,
        };
        if bot_token.as_str().is_empty() {
            assert(lookups_give(get, Some(bot_token), None, None, None));
            return Err(ConfigError::Invalid { name: BOT_TOKEN_VAR, reason: MUST_NOT_BE_EMPTY });
        }
        let p = get(PUBLIC_URL_VAR);
        let public_url = match p {
            None => {
                assert(lookups_give(get, Some(bot_token), None, None, None));
                return Err(ConfigError::Missing(PUBLIC_URL_VAR));
            },
            Some(s) => s,
        };
        if public_url.as_str().is_empty() {
            assert(lookups_give(get, Some(bot_token), Some(public_url), None, None));
            return Err(ConfigError::Invalid { name: PUBLIC_URL_VAR, reason: MUST_NOT_BE_EMPTY });
        }
        let d = get(DATABASE_URL_VAR);
        let l = get(LISTEN_ADDR_VAR);
        let ghost dg = d;
        let ghost lg = l;
        let database_url = match d {
            Some(s) => s,
            None => DEFAULT_DATABASE_URL.to_owned(),
        };
        let listen_addr = match l {
            Some(s) => s,
            None => DEFAULT_LISTEN_ADDR.to_owned(),
        };
        let cfg = Config { bot_token, database_url, public_url, listen_addr };
        assert(lookups_give(get, Some(cfg.bot_token), Some(cfg.public_url), dg, lg));
        Ok(cfg)
    }
}

} // verus!
