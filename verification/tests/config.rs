use axum::http::HeaderValue;
use harness_registry::config::{Config, EnvVars, MissingVar};
use harness_registry::cors::cors;

fn vars() -> EnvVars {
    EnvVars {
        database_url: Some("postgres://db".to_owned()),
        bind_addr: None,
        cors_allow_origins: None,
        admin_token: None,
        max_yaml_bytes: None,
        install_rate_limit: None,
        install_rate_window_secs: None,
    }
}

fn with_origins(origins: &str) -> Config {
    Config::from_env(EnvVars { cors_allow_origins: Some(origins.to_owned()), ..vars() }).unwrap()
}

#[test]
fn the_database_is_the_one_thing_that_has_to_be_named() {
    let missing = Config::from_env(EnvVars { database_url: None, ..vars() }).unwrap_err();
    assert_eq!(missing.message(), "DATABASE_URL is required");
    assert_eq!(MissingVar("X").message(), "X is required");
}

#[test]
fn everything_else_has_a_default() {
    let config = Config::from_env(vars()).unwrap();
    assert_eq!(config.database_url, "postgres://db");
    assert_eq!(config.bind, "0.0.0.0:8080");
    assert!(config.cors_origins.is_empty());
    assert_eq!(config.admin_token, None);
    assert_eq!(config.max_yaml_bytes, 262_144);
    assert_eq!(config.install_rate_limit, 60);
    assert_eq!(config.install_rate_window_secs, 60);
    assert_eq!(config.body_limit(), 262_144 + 65_536);
}

#[test]
fn what_is_set_is_taken() {
    let config = Config::from_env(EnvVars {
        database_url: Some(String::new()),
        bind_addr: Some("127.0.0.1:1".to_owned()),
        cors_allow_origins: Some(" https://a.example , ,https://b.example".to_owned()),
        admin_token: Some("secret".to_owned()),
        max_yaml_bytes: Some("10".to_owned()),
        install_rate_limit: Some("+3".to_owned()),
        install_rate_window_secs: Some("18446744073709551615".to_owned()),
    })
    .unwrap();
    assert_eq!(config.database_url, "");
    assert_eq!(config.bind, "127.0.0.1:1");
    assert_eq!(config.cors_origins, vec!["https://a.example", "https://b.example"]);
    assert_eq!(config.admin_token.as_deref(), Some("secret"));
    assert_eq!(config.max_yaml_bytes, 10);
    assert_eq!(config.install_rate_limit, 3);
    assert_eq!(config.install_rate_window_secs, u64::MAX);

    let copy = config.clone();
    assert_eq!(copy.bind, config.bind);
    assert_eq!(copy.cors_origins, config.cors_origins);
    assert_eq!(copy.admin_token, config.admin_token);
    assert_eq!(copy.install_rate_window_secs, config.install_rate_window_secs);
}

#[test]
fn a_number_that_cannot_be_read_is_the_default() {
    let config = Config::from_env(EnvVars {
        max_yaml_bytes: Some("256k".to_owned()),
        install_rate_limit: Some("4294967296".to_owned()),
        install_rate_window_secs: Some("-1".to_owned()),
        ..vars()
    })
    .unwrap();
    assert_eq!(config.max_yaml_bytes, 262_144);
    assert_eq!(config.install_rate_limit, 60);
    assert_eq!(config.install_rate_window_secs, 60);
}

#[test]
fn an_empty_admin_token_counts_as_none() {
    let config =
        Config::from_env(EnvVars { admin_token: Some(String::new()), ..vars() }).unwrap();
    assert_eq!(config.admin_token, None);
    // A blank one is a token nobody can present, not an absent one.
    let config =
        Config::from_env(EnvVars { admin_token: Some(" ".to_owned()), ..vars() }).unwrap();
    assert_eq!(config.admin_token.as_deref(), Some(" "));
}

#[test]
fn without_origins_no_browser_is_let_in() {
    assert!(cors(&with_origins("")).is_none());
    assert!(cors(&with_origins(" , ")).is_none());
    assert!(cors(&with_origins("bad\u{7f}origin")).is_none());
}

#[test]
fn browsers_may_read_from_the_configured_origins() {
    let policy = cors(&with_origins("https://a.example, bad\norigin, https://é.example")).unwrap();
    assert_eq!(
        policy.origins,
        vec![
            HeaderValue::from_static("https://a.example"),
            HeaderValue::from_bytes("https://é.example".as_bytes()).unwrap(),
        ]
    );
    assert_eq!(policy.methods, ["GET", "HEAD"]);
    assert_eq!(policy.headers, ["content-type"]);
    assert_eq!(policy.max_age_secs, 3600);
}
