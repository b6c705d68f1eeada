use ferro_protect::config::{
    load_outcome, parse_boolish, resolve, resolve_path, ConfigError, ConfigFile, ConfigFileRead,
    FileDiscoverySource, Flags, LoadedConfig, ENV_CONFIG_FILE, default_path_from, expand_tilde_with_home,
};
use ferro_protect::env::EnvVars;
use ferro_protect::logging::LogLevel;

fn env_from(pairs: &[(&str, &str)]) -> EnvVars {
    EnvVars::from_pairs(pairs.iter().map(|(k, v)| (k.to_string(), v.to_string())).collect())
}

fn empty_env() -> EnvVars {
    EnvVars::empty()
}

fn loaded(file: ConfigFile) -> LoadedConfig {
    LoadedConfig { file, path: "/cfg".to_string(), source: FileDiscoverySource::XdgDefault }
}

#[test]
fn parse_boolish_accepts_clap_vocabulary() {
    for s in ["1", "true", "TRUE", "yes", "on"] {
        assert_eq!(parse_boolish(s), Some(true), "input {s}");
    }
    for s in ["0", "false", "FALSE", "no", "off"] {
        assert_eq!(parse_boolish(s), Some(false), "input {s}");
    }
    for s in ["maybe", "", "  "] {
        assert_eq!(parse_boolish(s), None, "input {s:?}");
    }
}

#[test]
fn validate_rejects_host_plus_base_url() {
    let cf = ConfigFile {
        host: Some("h".into()),
        base_url: Some("https://x".into()),
        ..ConfigFile::default()
    };
    assert!(matches!(cf.validate(), Err(ConfigError::HostAndBaseUrl)));
}

#[test]
fn validate_rejects_empty_or_whitespace_strings() {
    for (cf, expected) in [
        (ConfigFile { host: Some(String::new()), ..ConfigFile::default() }, "host"),
        (ConfigFile { host: Some("   ".into()), ..ConfigFile::default() }, "host"),
        (ConfigFile { base_url: Some("  \t".into()), ..ConfigFile::default() }, "base_url"),
        (ConfigFile { api_key_file: Some(String::new()), ..ConfigFile::default() }, "api_key_file"),
        (ConfigFile { api_key_file: Some("   ".into()), ..ConfigFile::default() }, "api_key_file"),
    ] {
        match cf.validate() {
            Err(ConfigError::EmptyValue { field }) => assert_eq!(field, expected),
            other => panic!("expected EmptyValue({expected}), got {other:?}"),
        }
    }
}

#[test]
fn validate_accepts_plain_file() {
    let cf = ConfigFile { host: Some("nvr.local".into()), ..ConfigFile::default() };
    assert!(cf.validate().is_ok());
}

#[test]
fn resolve_flag_wins_over_env_and_file() {
    let flags = Flags { host: Some("from-flag".into()), ..Flags::default() };
    let lc = loaded(ConfigFile { host: Some("from-file".into()), ..ConfigFile::default() });
    let env = env_from(&[("UNIFI_PROTECT_HOST", "from-env")]);
    let r = resolve(&flags, Some(&lc), &env).expect("resolve");
    assert_eq!(r.host.as_deref(), Some("from-flag"));
}

#[test]
fn resolve_env_wins_over_file_when_no_flag() {
    let lc = loaded(ConfigFile { host: Some("from-file".into()), ..ConfigFile::default() });
    let env = env_from(&[("UNIFI_PROTECT_HOST", "from-env")]);
    let r = resolve(&Flags::default(), Some(&lc), &env).expect("resolve");
    assert_eq!(r.host.as_deref(), Some("from-env"));
}

#[test]
fn resolve_file_wins_when_no_flag_or_env() {
    let lc = loaded(ConfigFile { host: Some("from-file".into()), ..ConfigFile::default() });
    let r = resolve(&Flags::default(), Some(&lc), &empty_env()).expect("resolve");
    assert_eq!(r.host.as_deref(), Some("from-file"));
}

#[test]
fn resolve_bool_default_when_unset() {
    let r = resolve(&Flags::default(), None, &empty_env()).expect("resolve");
    assert!(!r.insecure);
    assert!(!r.json);
}

#[test]
fn resolve_bool_rejects_invalid_env_value() {
    let env = env_from(&[("UNIFI_PROTECT_JSON", "tru")]);
    let err = resolve(&Flags::default(), None, &env).expect_err("should error");
    assert!(
        matches!(err, ConfigError::BadEnvBool { name: "UNIFI_PROTECT_JSON", ref value } if value == "tru"),
        "unexpected error: {err:?}",
    );
}

#[test]
fn resolve_bool_empty_env_falls_through() {
    let env = env_from(&[("UNIFI_PROTECT_JSON", "   ")]);
    let r = resolve(&Flags::default(), None, &env).expect("resolve");
    assert!(!r.json);
}

#[test]
fn resolve_empty_env_string_falls_through_to_file() {
    let lc = loaded(ConfigFile { host: Some("from-file".into()), ..ConfigFile::default() });
    let env = env_from(&[("UNIFI_PROTECT_HOST", "")]);
    let r = resolve(&Flags::default(), Some(&lc), &env).expect("resolve");
    assert_eq!(r.host.as_deref(), Some("from-file"));
}

#[test]
fn resolve_whitespace_only_env_string_falls_through_to_file() {
    let lc = loaded(ConfigFile { host: Some("from-file".into()), ..ConfigFile::default() });
    let env = env_from(&[("UNIFI_PROTECT_HOST", "   \t\n")]);
    let r = resolve(&Flags::default(), Some(&lc), &env).expect("resolve");
    assert_eq!(r.host.as_deref(), Some("from-file"));
}

#[test]
fn resolve_env_string_is_trimmed_before_storing() {
    let env = env_from(&[("UNIFI_PROTECT_HOST", "  nvr.local  \n")]);
    let r = resolve(&Flags::default(), None, &env).expect("resolve");
    assert_eq!(r.host.as_deref(), Some("nvr.local"));
}

#[test]
fn resolve_rejects_cross_source_host_plus_base_url() {
    let lc = loaded(ConfigFile { host: Some("from-file".into()), ..ConfigFile::default() });
    let flags = Flags { base_url: Some("https://from-flag/".into()), ..Flags::default() };
    let err = resolve(&flags, Some(&lc), &empty_env()).expect_err("rejects");
    assert!(matches!(err, ConfigError::HostAndBaseUrl), "got {err:?}");
}

#[test]
fn resolve_path_empty_env_config_file_falls_through_to_xdg() {
    let env = env_from(&[(ENV_CONFIG_FILE, "   ")]);
    let (_path, source) = resolve_path(None, &env).expect("resolves");
    assert!(matches!(source, FileDiscoverySource::XdgDefault));
}

#[test]
fn resolve_path_flag_then_env() {
    let env = env_from(&[(ENV_CONFIG_FILE, "  /etc/fp.toml ")]);
    let (p, s) = resolve_path(Some("/flag.toml"), &env).expect("resolves");
    assert_eq!((p.as_str(), s), ("/flag.toml", FileDiscoverySource::Flag));
    let (p, s) = resolve_path(None, &env).expect("resolves");
    assert_eq!((p.as_str(), s), ("/etc/fp.toml", FileDiscoverySource::Env));
}

#[test]
fn resolve_log_level_defaults_to_warn_and_file_fills_in() {
    let r = resolve(&Flags::default(), None, &empty_env()).expect("resolve");
    assert_eq!(r.log_level, LogLevel::Warn);
    let lc = loaded(ConfigFile { log_level: Some(LogLevel::Debug), ..ConfigFile::default() });
    let r = resolve(&Flags::default(), Some(&lc), &empty_env()).expect("resolve");
    assert_eq!(r.log_level, LogLevel::Debug);
    let flags = Flags { log_level: Some(LogLevel::Error), ..Flags::default() };
    let r = resolve(&flags, Some(&lc), &empty_env()).expect("resolve");
    assert_eq!(r.log_level, LogLevel::Error);
}

#[test]
fn resolve_api_key_file_env_overrides_file_untrimmed_file() {
    let lc = loaded(ConfigFile { api_key_file: Some("/file/path".into()), ..ConfigFile::default() });
    let env = env_from(&[("UNIFI_PROTECT_API_KEY_FILE", "/env/path")]);
    let r = resolve(&Flags::default(), Some(&lc), &env).expect("resolve");
    assert_eq!(r.api_key_file.as_deref(), Some("/env/path"));
    let r = resolve(&Flags::default(), Some(&lc), &empty_env()).expect("resolve");
    assert_eq!(r.api_key_file.as_deref(), Some("/file/path"));
}

#[test]
fn missing_explicit_config_file_is_hard_error() {
    let r = load_outcome("/nope.toml".into(), FileDiscoverySource::Flag, ConfigFileRead::NotFound, None);
    assert!(matches!(r, Err(ConfigError::ExplicitMissing { ref path, via: FileDiscoverySource::Flag }) if path == "/nope.toml"));
    let r = load_outcome("/nope.toml".into(), FileDiscoverySource::Env, ConfigFileRead::NotFound, None);
    assert!(matches!(r, Err(ConfigError::ExplicitMissing { via: FileDiscoverySource::Env, .. })));
}

#[test]
fn missing_xdg_default_is_no_config() {
    let r = load_outcome("/x.toml".into(), FileDiscoverySource::XdgDefault, ConfigFileRead::NotFound, None);
    assert!(matches!(r, Ok(None)));
}

#[test]
fn load_expands_tilde_in_api_key_file() {
    let f = ConfigFile { host: Some("nvr.local".into()), api_key_file: Some("~/keys/protect".into()), ..ConfigFile::default() };
    let r = load_outcome("/c.toml".into(), FileDiscoverySource::Flag, ConfigFileRead::Parsed(f), Some("/home/me"))
        .expect("loads")
        .expect("some");
    assert_eq!(r.file.api_key_file.as_deref(), Some("/home/me/keys/protect"));
    assert_eq!(r.path, "/c.toml");
}

#[test]
fn load_rejects_invalid_file() {
    let f = ConfigFile { host: Some("a".into()), base_url: Some("b".into()), ..ConfigFile::default() };
    let r = load_outcome("/c.toml".into(), FileDiscoverySource::Flag, ConfigFileRead::Parsed(f), None);
    assert!(matches!(r, Err(ConfigError::HostAndBaseUrl)));
}

#[test]
fn expand_tilde_cases() {
    assert_eq!(expand_tilde_with_home("~/a/b", Some("/h")), "/h/a/b");
    assert_eq!(expand_tilde_with_home("~", Some("/h")), "/h");
    assert_eq!(expand_tilde_with_home("~user/a", Some("/h")), "~user/a");
    assert_eq!(expand_tilde_with_home("/abs", Some("/h")), "/abs");
    assert_eq!(expand_tilde_with_home("~/a", None), "~/a");
    assert_eq!(expand_tilde_with_home("~/a", Some("/h/")), "/h/a");
}

#[test]
fn config_error_messages() {
    assert_eq!(ConfigError::HostAndBaseUrl.message(), "config file: cannot set both `host` and `base_url`");
    assert_eq!(
        ConfigError::ExplicitMissing { path: "/nope.toml".to_string(), via: FileDiscoverySource::Env }.message(),
        "config file not found at /nope.toml\n(referenced via UNIFI_PROTECT_CONFIG_FILE env var)"
    );
    assert_eq!(
        ConfigError::BadEnvBool { name: "UNIFI_PROTECT_JSON", value: "tru".to_string() }.message(),
        "env `UNIFI_PROTECT_JSON` has invalid value `tru`: expected one of 1/0, true/false, yes/no, on/off (case-insensitive)"
    );
    assert_eq!(
        ConfigError::EmptyValue { field: "host" }.message(),
        "config file: `host` is empty. Comment the line out or remove the entry instead of setting it to an empty value."
    );
    assert_eq!(ConfigError::NoConfigDir("could not locate home directory".to_string()).message(), "could not determine config directory: could not locate home directory");
}

#[test]
fn missing_env_config_file_is_hard_error() {
    let env = env_from(&[(ENV_CONFIG_FILE, "/definitely/not/here.toml")]);
    let (path, source) = resolve_path(None, &env).expect("resolves");
    assert_eq!(path, "/definitely/not/here.toml");
    assert_eq!(source, FileDiscoverySource::Env);
    match load_outcome(path, source, ConfigFileRead::NotFound, None) {
        Err(e) => assert!(e.message().contains("config file not found"), "{}", e.message()),
        Ok(_) => panic!("expected a hard error"),
    }
}

#[test]
fn missing_xdg_default_errors_with_actionable_hint() {
    let r = load_outcome("/home/me/.config/ferro-protect/config.toml".into(), FileDiscoverySource::XdgDefault, ConfigFileRead::NotFound, None);
    assert!(matches!(r, Ok(None)));
    let e = ferro_protect::commands::config::ConfigCmdError::NoConfigFile {
        path: "/home/me/.config/ferro-protect/config.toml".to_string(),
    };
    let msg = e.message();
    assert!(msg.contains("no config file"), "{msg}");
    assert!(msg.contains("ferro-protect config template"), "{msg}");
}

#[test]
fn path_errors_when_xdg_default_is_missing() {
    let e = ferro_protect::commands::config::ConfigCmdError::NoConfigFile { path: "/tmp/home/.config/ferro-protect/config.toml".to_string() };
    assert!(e.message().contains("no config file"));
}

#[test]
fn path_errors_when_resolved_path_is_a_directory() {
    let env = empty_env();
    let (path, source) = resolve_path(Some("/tmp/somedir"), &env).expect("resolves");
    assert_eq!(source, FileDiscoverySource::Flag);
    let e = ferro_protect::commands::config::ConfigCmdError::NoConfigFile { path };
    assert!(e.message().contains("no config file"));
}

#[test]
fn load_returns_the_first_failing_check() {
    let f = ConfigFile { host: Some("  ".into()), api_key_file: Some("".into()), ..ConfigFile::default() };
    let r = load_outcome("/c.toml".into(), FileDiscoverySource::Env, ConfigFileRead::Parsed(f), None);
    assert!(matches!(r, Err(ConfigError::EmptyValue { field: "host" })));
}

#[test]
fn default_path_from_config_dir() {
    match default_path_from(Ok("/home/me/.config".to_string())) {
        Ok(p) => assert_eq!(p, "/home/me/.config/ferro-protect/config.toml"),
        Err(_) => panic!("a directory was found"),
    }
    match default_path_from(Err("could not locate home directory".to_string())) {
        Err(ConfigError::NoConfigDir(m)) => assert_eq!(m, "could not locate home directory"),
        _ => panic!("expected NoConfigDir"),
    }
}
