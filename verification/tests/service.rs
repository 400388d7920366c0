use scrollr::database::{
    pool_target, DatabaseEnv, DatabaseVariable, PoolError, PoolTarget, IDLE_TIMEOUT,
    MAX_CONNECTIONS, MIN_CONNECTIONS,
};
use scrollr::number::IntError;
use scrollr::service::{
    acme_enabled, certificate_names, contact_address, listen_address, log_enabled, log_entry,
    log_file, log_locator, LogLevel, LOG_CHANNEL_CAPACITY,
};

fn env(parts: [Option<&str>; 6]) -> DatabaseEnv {
    let text = |part: Option<&str>| part.map(|p| p.to_string());
    DatabaseEnv {
        database_url: text(parts[0]),
        host: text(parts[1]),
        port: text(parts[2]),
        user: text(parts[3]),
        password: text(parts[4]),
        database: text(parts[5]),
    }
}

#[test]
fn address_as_a_whole_comes_first() {
    let target = pool_target(env([Some("postgres://x"), Some("h"), Some("bad"), None, None, None]));
    assert!(matches!(target, Ok(PoolTarget::Url(url)) if url == "postgres://x"));
}

#[test]
fn parts_are_used_without_the_db_prefix() {
    let parts = |host| env([None, Some(host), Some("5432"), Some("u"), Some("p"), Some("d")]);
    let options = |target| match target {
        Ok(PoolTarget::Options(options)) => options,
        _ => panic!("no options"),
    };
    let fixed = options(pool_target(parts("db.example.com")));
    assert_eq!(fixed.host, "example.com");
    assert_eq!(fixed.port, 5432);
    assert_eq!(fixed.username, "u");
    assert_eq!(fixed.password, "p");
    assert_eq!(fixed.database, "d");
    assert_eq!(options(pool_target(parts("example.db.com"))).host, "example.db.com");
    assert_eq!(options(pool_target(parts("db.db.com"))).host, "db.com");
}

#[test]
fn first_missing_variable_is_reported() {
    let full = [None, Some("h"), Some("x"), Some("u"), Some("p"), Some("d")];
    let variables = [
        (1, DatabaseVariable::Host, "Missing environment variable: DB_HOST"),
        (2, DatabaseVariable::Port, "Missing environment variable: DB_PORT"),
        (3, DatabaseVariable::User, "Missing environment variable: DB_USER"),
        (4, DatabaseVariable::Password, "Missing environment variable: DB_PASSWORD"),
        (5, DatabaseVariable::Database, "Missing environment variable: DB_DATABASE"),
    ];
    for (at, variable, words) in variables {
        let mut parts = full;
        parts[at] = None;
        let error = pool_target(env(parts)).unwrap_err();
        assert_eq!(error, PoolError::Missing(variable));
        assert_eq!(error.message(), words);
    }
    assert_eq!(
        pool_target(env([None; 6])).unwrap_err(),
        PoolError::Missing(DatabaseVariable::Host)
    );
    let error = pool_target(env(full)).unwrap_err();
    assert_eq!(error, PoolError::InvalidPort(IntError::InvalidDigit));
    assert_eq!(error.message(), "DB_PORT must be a valid u16 integer");
    let mut large = full;
    large[2] = Some("65536");
    assert_eq!(
        pool_target(env(large)).unwrap_err(),
        PoolError::InvalidPort(IntError::TooLarge)
    );
}

#[test]
fn pool_limits_are_set() {
    assert_eq!((MAX_CONNECTIONS, MIN_CONNECTIONS, IDLE_TIMEOUT), (50, 6, 30_000));
    assert_eq!(LOG_CHANNEL_CAPACITY, 1000);
}

#[test]
fn acme_is_on_unless_told_otherwise() {
    assert!(acme_enabled(None));
    assert!(acme_enabled(Some("true".to_string())));
    assert!(acme_enabled(Some("TRUE".to_string())));
    assert!(!acme_enabled(Some("false".to_string())));
    assert!(!acme_enabled(Some("".to_string())));
    assert!(!acme_enabled(Some(" true".to_string())));
}

#[test]
fn addresses_are_put_together() {
    assert_eq!(listen_address(None, "3001"), "0.0.0.0:3001");
    assert_eq!(listen_address(Some("80".to_string()), "3001"), "0.0.0.0:80");
    assert_eq!(contact_address("me@example.com"), "mailto:me@example.com");
    assert_eq!(
        certificate_names("example.com".to_string()),
        vec!["example.com", "localhost", "127.0.0.1"]
    );
}

#[test]
fn log_lines_name_their_place() {
    assert!(log_enabled(LogLevel::Error));
    assert!(log_enabled(LogLevel::Warn));
    assert!(log_enabled(LogLevel::Info));
    assert!(!log_enabled(LogLevel::Debug));
    assert!(!log_enabled(LogLevel::Trace));
    assert_eq!(
        log_locator(Some("finance_service/src/main.rs"), Some(12), "finance_service"),
        "(main.rs : 12)"
    );
    assert_eq!(log_locator(Some("other/src/main.rs"), None, "finance_service"), "(other/src/main.rs : Unknown)");
    assert_eq!(log_locator(None, Some(u32::MAX), "t"), "(Unknown : 4294967295)");
    assert_eq!(
        log_entry("now", "INFO", "t", "(a : 1)", "hello"),
        "[now] INFO t (a : 1) - hello\n"
    );
    assert_eq!(log_file("./logs", "finance"), "./logs/finance.log");
}
