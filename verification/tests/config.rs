use dushulang::config::{
    Config, EnvSnapshot, Environment, ServerSettings, SettingsError, DEFAULT_PORT,
};
use dushulang::text::{parse_u16, split_trimmed, strip_prefix, text_contains};

fn empty_env() -> EnvSnapshot {
    EnvSnapshot {
        node_env: None,
        host: None,
        port: None,
        database_url: None,
        db_host: None,
        db_port: None,
        db_name: None,
        db_user: None,
        db_pass: None,
        redis_url: None,
        redis_host: None,
        redis_port: None,
        jwt_secret: None,
        session_secret: None,
        rust_log: None,
        cors_origins: None,
    }
}

fn some(s: &str) -> Option<String> {
    Some(s.to_string())
}

#[test]
fn empty_environment_gives_the_defaults() {
    let c = Config::from_env(&empty_env());
    assert_eq!(c.host, "127.0.0.1");
    assert_eq!(c.port, 9005);
    assert_eq!(c.port, DEFAULT_PORT);
    assert_eq!(c.database_url, "postgres://postgres:@localhost:5432/xiaoxiao_dushulang");
    assert_eq!(c.redis_url, "redis://localhost:6379");
    assert_eq!(c.jwt_secret, "xiaoxiao-jwt-secret");
    assert_eq!(c.session_secret, "xiaoxiao-session-secret");
    assert_eq!(c.environment, Environment::Development);
    assert_eq!(c.log_level, "debug");
    assert_eq!(c.cors_origins, vec!["http://localhost:3000", "http://localhost:8080"]);
    assert!(c.is_development());
    assert!(!c.is_production());
    assert!(!c.is_test());
}

#[test]
fn environment_follows_node_env() {
    let mut env = empty_env();
    env.node_env = some("production");
    let c = Config::from_env(&env);
    assert_eq!(c.environment, Environment::Production);
    assert!(c.is_production() && !c.is_development() && !c.is_test());
    assert_eq!(c.log_level, "info");
    env.node_env = some("test");
    let c = Config::from_env(&env);
    assert!(c.is_test() && !c.is_development() && !c.is_production());
    assert_eq!(c.log_level, "warn");
    for other in ["Production", "prod", "", " test", "development"] {
        env.node_env = some(other);
        let c = Config::from_env(&env);
        assert!(c.is_development(), "{:?}", other);
        assert_eq!(c.log_level, "debug");
    }
    env.node_env = some("production");
    env.rust_log = some("trace");
    assert_eq!(Config::from_env(&env).log_level, "trace");
}

#[test]
fn addresses_are_put_together_from_their_parts() {
    let mut env = empty_env();
    env.db_host = some("db.internal");
    env.db_port = some("6543");
    env.db_name = some("books");
    env.db_user = some("reader");
    env.db_pass = some("pa:ss");
    env.redis_host = some("cache");
    env.redis_port = some("7000");
    let c = Config::from_env(&env);
    assert_eq!(c.database_url, "postgres://reader:pa:ss@db.internal:6543/books");
    assert_eq!(c.redis_url, "redis://cache:7000");
    env.database_url = some("postgres://elsewhere/x");
    env.redis_url = some("redis://elsewhere:1");
    let c = Config::from_env(&env);
    assert_eq!(c.database_url, "postgres://elsewhere/x");
    assert_eq!(c.redis_url, "redis://elsewhere:1");
    env.host = some("0.0.0.0");
    env.jwt_secret = some("j");
    env.session_secret = some("s");
    let c = Config::from_env(&env);
    assert_eq!((c.host.as_str(), c.jwt_secret.as_str(), c.session_secret.as_str()), ("0.0.0.0", "j", "s"));
}

#[test]
fn unreadable_port_falls_back_to_the_default() {
    let mut env = empty_env();
    for (text, port) in [
        ("8080", 8080u16),
        ("+81", 81),
        ("0", 0),
        ("65535", 65535),
        ("0009005", 9005),
        ("65536", 9005),
        ("99999999999999999999", 9005),
        ("", 9005),
        ("+", 9005),
        ("-1", 9005),
        (" 80", 9005),
        ("80 ", 9005),
        ("8o", 9005),
        ("++8", 9005),
        ("８０", 9005),
    ] {
        env.port = some(text);
        assert_eq!(Config::from_env(&env).port, port, "{:?}", text);
        assert_eq!(text.parse::<u16>().unwrap_or(9005), port, "{:?}", text);
    }
}

#[test]
fn parse_u16_reads_what_the_standard_parser_reads() {
    assert_eq!(parse_u16("443"), Some(443));
    assert_eq!(parse_u16("+443"), Some(443));
    assert_eq!(parse_u16("65535"), Some(65535));
    assert_eq!(parse_u16("65536"), None);
    assert_eq!(parse_u16("4 43"), None);
    assert_eq!(parse_u16(""), None);
    for n in [0u32, 1, 9, 10, 99, 100, 65534, 65535, 65536, 70000, 655350, 4294967295] {
        let text = n.to_string();
        assert_eq!(parse_u16(&text), text.parse::<u16>().ok(), "{}", text);
    }
}

#[test]
fn origins_are_split_at_commas_and_trimmed() {
    let mut env = empty_env();
    env.cors_origins = some(" https://a.example , https://b.example,https://c.example ");
    assert_eq!(
        Config::from_env(&env).cors_origins,
        vec!["https://a.example", "https://b.example", "https://c.example"]
    );
    env.cors_origins = some("");
    assert_eq!(Config::from_env(&env).cors_origins, vec![""]);
    env.cors_origins = some("a,,b,");
    assert_eq!(Config::from_env(&env).cors_origins, vec!["a", "", "b", ""]);
    assert_eq!(split_trimmed(",", ','), vec!["", ""]);
    assert_eq!(split_trimmed("\tx y\n;z", ';'), vec!["x y", "z"]);
    assert_eq!(split_trimmed("  padded  ", ','), vec!["padded"]);
}

#[test]
fn substring_search_compares_characters_exactly() {
    assert!(text_contains("hello", ""));
    assert!(text_contains("", ""));
    assert!(!text_contains("", "a"));
    assert!(text_contains("hello", "hello"));
    assert!(text_contains("hello", "ell"));
    assert!(text_contains("hello", "lo"));
    assert!(!text_contains("hello", "lol"));
    assert!(!text_contains("hello", "Hell"));
    assert!(!text_contains("hi", "hello"));
    assert!(text_contains("学而时习之", "时习"));
    assert!(!text_contains("学而时习之", "习时"));
    assert!(text_contains("aab", "ab"));
}

#[test]
fn prefix_is_stripped_only_where_it_stands() {
    assert_eq!(strip_prefix("Bearer abc", "Bearer "), Some("abc"));
    assert_eq!(strip_prefix("Bearer ", "Bearer "), Some(""));
    assert_eq!(strip_prefix("bearer abc", "Bearer "), None);
    assert_eq!(strip_prefix("Bear", "Bearer "), None);
    assert_eq!(strip_prefix("x", ""), Some("x"));
    assert_eq!(strip_prefix("令牌 值", "令牌 "), Some("值"));
}

#[test]
fn character_server_settings_need_a_database_and_a_readable_port() {
    let mut env = empty_env();
    assert_eq!(ServerSettings::from_env(&env).err(), Some(SettingsError::MissingDatabaseUrl));
    env.port = some("nope");
    assert_eq!(ServerSettings::from_env(&env).err(), Some(SettingsError::MissingDatabaseUrl));
    env.database_url = some("postgres://db/x");
    assert_eq!(ServerSettings::from_env(&env).err(), Some(SettingsError::InvalidPort));
    env.port = some("70000");
    assert_eq!(ServerSettings::from_env(&env).err(), Some(SettingsError::InvalidPort));
    env.port = None;
    let s = ServerSettings::from_env(&env).unwrap();
    assert_eq!(s.database_url, "postgres://db/x");
    assert_eq!(s.redis_url, "redis://127.0.0.1:6379");
    assert_eq!(s.port, 9005);
    assert_eq!(s.jwt_secret, "your-secret-key");
    env.port = some("8081");
    env.redis_url = some("redis://cache:1");
    env.jwt_secret = some("hush");
    let s = ServerSettings::from_env(&env).unwrap();
    assert_eq!((s.port, s.redis_url.as_str(), s.jwt_secret.as_str()), (8081, "redis://cache:1", "hush"));
}
