use ferro_protect::env::EnvVars;
use ferro_protect::logging::{choose_log_filter, log_line, LogFilter, LogLevel};

fn env_from(pairs: &[(&str, &str)]) -> EnvVars {
    EnvVars::from_pairs(pairs.iter().map(|(k, v)| (k.to_string(), v.to_string())).collect())
}

#[test]
fn flag_wins_over_env_and_file() {
    let env = env_from(&[("UNIFI_PROTECT_LOG", "debug"), ("RUST_LOG", "trace")]);
    assert_eq!(choose_log_filter(Some(LogLevel::Error), Some(LogLevel::Info), &env), LogFilter::Level(LogLevel::Error));
}

#[test]
fn app_env_wins_over_rust_log() {
    let env = env_from(&[("UNIFI_PROTECT_LOG", "info"), ("RUST_LOG", "trace")]);
    assert_eq!(choose_log_filter(None, Some(LogLevel::Error), &env), LogFilter::Directives("info".to_string()));
    let env = env_from(&[("RUST_LOG", "ferro_protect=debug")]);
    assert_eq!(
        choose_log_filter(None, Some(LogLevel::Error), &env),
        LogFilter::Directives("ferro_protect=debug".to_string())
    );
}

#[test]
fn file_level_then_warn() {
    assert_eq!(choose_log_filter(None, Some(LogLevel::Debug), &EnvVars::empty()), LogFilter::Level(LogLevel::Debug));
    assert_eq!(choose_log_filter(None, None, &EnvVars::empty()), LogFilter::Directives("warn".to_string()));
}

#[test]
fn log_lines_show_target_only_when_verbose() {
    assert_eq!(
        log_line("2024-01-01T00:00:00Z", LogLevel::Info, "ferro_protect", "fetched application info: version 6.2.83"),
        "2024-01-01T00:00:00Z INFO fetched application info: version 6.2.83\n"
    );
    assert_eq!(
        log_line("t", LogLevel::Debug, "ferro_protect::client", "GET /v1/meta/info"),
        "t DEBUG ferro_protect::client GET /v1/meta/info\n"
    );
    assert_eq!(log_line("t", LogLevel::Warn, "x", "m"), "t WARN m\n");
    assert_eq!(log_line("t", LogLevel::Trace, "x", "m"), "t TRACE x m\n");
    assert_eq!(LogLevel::Error.as_str(), "error");
}
