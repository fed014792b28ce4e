use anubot::config::{Config, ConfigError};

fn lookup<'a>(vars: &'a [(&'a str, &'a str)]) -> impl Fn(&str) -> Option<String> + 'a {
    move |k: &str| vars.iter().find(|(n, _)| *n == k).map(|(_, v)| v.to_string())
}

#[test]
fn full_configuration() {
    let vars = [
        ("BOT_TOKEN", "123:abc"),
        ("PUBLIC_URL", "https://bot.example.org"),
        ("DATABASE_URL", "sqlite:x.db"),
        ("LISTEN_ADDR", "0.0.0.0:9000"),
    ];
    let c = Config::from_getter(lookup(&vars)).unwrap();
    assert_eq!(
        c,
        Config {
            bot_token: "123:abc".to_string(),
            database_url: "sqlite:x.db".to_string(),
            public_url: "https://bot.example.org".to_string(),
            listen_addr: "0.0.0.0:9000".to_string(),
        }
    );
}

#[test]
fn defaults_for_optional_variables() {
    let vars = [("BOT_TOKEN", "t"), ("PUBLIC_URL", "https://p")];
    let c = Config::from_getter(lookup(&vars)).unwrap();
    assert_eq!(c.database_url, "sqlite:anubot.sqlite");
    assert_eq!(c.listen_addr, "127.0.0.1:8080");
}

#[test]
fn missing_and_empty_required_variables() {
    assert_eq!(Config::from_getter(lookup(&[])), Err(ConfigError::Missing("BOT_TOKEN")));
    assert_eq!(
        Config::from_getter(lookup(&[("BOT_TOKEN", "")])),
        Err(ConfigError::Invalid { name: "BOT_TOKEN", reason: "must not be empty" })
    );
    assert_eq!(
        Config::from_getter(lookup(&[("BOT_TOKEN", "t")])),
        Err(ConfigError::Missing("PUBLIC_URL"))
    );
    assert_eq!(
        Config::from_getter(lookup(&[("BOT_TOKEN", "t"), ("PUBLIC_URL", "")])),
        Err(ConfigError::Invalid { name: "PUBLIC_URL", reason: "must not be empty" })
    );
}
