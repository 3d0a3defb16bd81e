use magiclink::config::{
    bind_addr, database_directory, existing_dir, parse_bool, parse_i64, Config, EnvVars,
};

fn vars() -> EnvVars {
    EnvVars {
        base_url: None,
        bind_addr: None,
        database_url: None,
        cors_origin: None,
        dist_dir: None,
        cookie_name: None,
        session_secure: None,
        session_hours: None,
        link_ttl: None,
        links_per_hour: None,
        postmark_token: Some("pm-token".into()),
        postmark_from: Some("No Reply <no-reply@example.com>".into()),
        postmark_stream: None,
        bootstrap_admin: Some("admin@example.test".into()),
    }
}

#[test]
fn defaults_fill_unset_variables() {
    let c = Config::load(vars(), true).unwrap();
    assert_eq!(c.addr, "127.0.0.1:3000");
    assert_eq!(c.db, "sqlite://./data/app.db?mode=rwc");
    assert_eq!(c.base, "http://localhost:3000");
    assert_eq!(c.cors, "http://localhost:5173");
    assert_eq!(c.dist, "./frontend/dist");
    assert_eq!(c.cookie, "app_session");
    assert!(!c.secure);
    assert_eq!((c.session_hours, c.ttl, c.per_hour), (168, 15, 5));
    assert_eq!(c.stream, "outbound");
    assert_eq!(c.token, "pm-token");
    assert_eq!(c.admin, "admin@example.test");
}

#[test]
fn base_loses_trailing_slashes() {
    let c = Config::load(EnvVars { base_url: Some("https://app.example//".into()), ..vars() }, true).unwrap();
    assert_eq!(c.base, "https://app.example");
}

#[test]
fn errors_come_in_reading_order() {
    let bad = EnvVars {
        base_url: Some("not a url".into()),
        session_secure: Some("yes".into()),
        ..vars()
    };
    assert_eq!(Config::load(bad, false).err(), Some("Érvénytelen APP_BASE_URL".to_string()));
    let bad = EnvVars { session_secure: Some("yes".into()), ..vars() };
    assert_eq!(Config::load(bad, false).err(), Some("Érvénytelen BIND_ADDR".to_string()));
    let bad = EnvVars { session_secure: Some("yes".into()), ..vars() };
    assert_eq!(Config::load(bad, true).err(), Some("Érvénytelen SESSION_SECURE".to_string()));
    let bad = EnvVars { session_hours: Some("1h".into()), ..vars() };
    assert_eq!(Config::load(bad, true).err(), Some("Érvénytelen SESSION_MAX_AGE_HOURS".to_string()));
    let bad = EnvVars { link_ttl: Some("".into()), ..vars() };
    assert_eq!(Config::load(bad, true).err(), Some("Érvénytelen MAGIC_LINK_TTL_MINUTES".to_string()));
    let bad = EnvVars { links_per_hour: Some("99999999999999999999".into()), ..vars() };
    assert_eq!(Config::load(bad, true).err(), Some("Érvénytelen MAGIC_LINK_REQUESTS_PER_HOUR".to_string()));
    let bad = EnvVars { postmark_token: None, bootstrap_admin: None, ..vars() };
    assert_eq!(Config::load(bad, true).err(), Some("Hiányzó környezeti változó: POSTMARK_SERVER_TOKEN".to_string()));
    let bad = EnvVars { postmark_from: None, ..vars() };
    assert_eq!(Config::load(bad, true).err(), Some("Hiányzó környezeti változó: POSTMARK_FROM".to_string()));
    let bad = EnvVars { bootstrap_admin: None, ..vars() };
    assert_eq!(Config::load(bad, true).err(), Some("Hiányzó környezeti változó: BOOTSTRAP_ADMIN_EMAIL".to_string()));
}

#[test]
fn set_values_are_used() {
    let c = Config::load(
        EnvVars {
            bind_addr: Some("0.0.0.0:8080".into()),
            session_secure: Some("true".into()),
            session_hours: Some("+12".into()),
            link_ttl: Some("-1".into()),
            postmark_stream: Some("broadcast".into()),
            ..vars()
        },
        true,
    )
    .unwrap();
    assert_eq!(c.addr, "0.0.0.0:8080");
    assert!(c.secure);
    assert_eq!((c.session_hours, c.ttl), (12, -1));
    assert_eq!(c.stream, "broadcast");
    assert_eq!(bind_addr(&EnvVars { bind_addr: Some("[::1]:1".into()), ..vars() }), "[::1]:1");
    assert_eq!(bind_addr(&vars()), "127.0.0.1:3000");
}

#[test]
fn integers_parse_like_std() {
    for s in ["0", "42", "-7", "+13", "9223372036854775807", "-9223372036854775808", "", "+", "-", " 1", "1 ", "9223372036854775808", "-9223372036854775809", "12a", "0x10", "٣"] {
        assert_eq!(parse_i64(s), s.parse::<i64>().ok(), "{s}");
    }
}

#[test]
fn booleans_parse_like_std() {
    for s in ["true", "false", "True", "1", "", " true"] {
        assert_eq!(parse_bool(s), s.parse::<bool>().ok(), "{s}");
    }
}

#[test]
fn database_directory_is_the_file_parent() {
    assert_eq!(database_directory("sqlite://./data/app.db?mode=rwc"), Some("./data".to_string()));
    assert_eq!(database_directory("sqlite://data/x/app.db"), Some("data/x".to_string()));
    assert_eq!(database_directory("sqlite://app.db"), None);
    assert_eq!(database_directory("sqlite:///app.db"), Some("/".to_string()));
    assert_eq!(database_directory("postgres://x/y"), None);
    assert_eq!(database_directory("sqlite://"), None);
}

#[test]
fn checks_decide_the_first_errors() {
    assert_eq!(Config::from_checks(vars(), false, true).err(), Some("Érvénytelen APP_BASE_URL".to_string()));
    assert_eq!(Config::from_checks(vars(), true, false).err(), Some("Érvénytelen BIND_ADDR".to_string()));
    assert_eq!(Config::from_checks(vars(), true, true), Config::load(vars(), true));
}

#[test]
fn empty_parent_is_no_directory() {
    assert_eq!(existing_dir(None), None);
    assert_eq!(existing_dir(Some(String::new())), None);
    assert_eq!(existing_dir(Some("data".into())), Some("data".to_string()));
}
