use ferro_protect::api_key::{
    key_from_file_contents, lax_permission_warning, plan, resolve, ApiKeyError, ApiKeySource, KeyPlan, Sources,
    ENV_KEY, ENV_KEY_FILE,
};
use ferro_protect::env::EnvVars;

fn env_from(pairs: &[(&str, &str)]) -> EnvVars {
    EnvVars::from_pairs(pairs.iter().map(|(k, v)| (k.to_string(), v.to_string())).collect())
}

fn sources_flag(path: &str) -> Sources {
    Sources { flag_file: Some(path.to_string()), ..Sources::default() }
}

fn read_ok(s: &str) -> Result<String, std::io::Error> {
    Ok(s.to_string())
}

#[test]
fn flag_wins_over_both_env_vars() {
    let env = env_from(&[(ENV_KEY_FILE, "/should/not/be/read"), (ENV_KEY, "from-raw-env")]);
    let p = plan(&sources_flag("/tmp/key"), &env);
    assert_eq!(p, KeyPlan::ReadFile { path: "/tmp/key".into(), source: ApiKeySource::Flag });
    let key = key_from_file_contents("/tmp/key", read_ok("from-flag")).expect("resolves");
    assert_eq!(key, "from-flag");
}

#[test]
fn file_env_wins_over_raw_env() {
    let env = env_from(&[(ENV_KEY_FILE, "/k"), (ENV_KEY, "from-raw-env")]);
    let p = plan(&Sources::default(), &env);
    assert_eq!(p, KeyPlan::ReadFile { path: "/k".into(), source: ApiKeySource::EnvFile });
    let key = key_from_file_contents("/k", read_ok("from-env-file")).expect("resolves");
    assert_eq!(key, "from-env-file");
}

#[test]
fn raw_env_works_alone() {
    let env = env_from(&[(ENV_KEY, "raw-key")]);
    let p = plan(&Sources::default(), &env);
    assert_eq!(p, KeyPlan::Raw { key: "raw-key".into(), source: ApiKeySource::EnvRaw });
}

#[test]
fn no_source_returns_not_provided_with_helpful_message() {
    let p = plan(&Sources::default(), &EnvVars::empty());
    assert_eq!(p, KeyPlan::NotProvided);
    let msg = ApiKeyError::NotProvided.message();
    assert!(msg.contains("--api-key-file"), "msg = {msg}");
    assert!(msg.contains(ENV_KEY_FILE), "msg = {msg}");
    assert!(msg.contains(ENV_KEY), "msg = {msg}");
    assert!(msg.contains("api_key_file"), "msg = {msg}");
    assert!(msg.contains("api_key"), "msg = {msg}");
}

#[test]
fn binary_rejects_when_no_key_provided() {
    let env = env_from(&[("UNIFI_PROTECT_HOST", "ignored")]);
    let p = plan(&Sources::default(), &env);
    assert_eq!(p, KeyPlan::NotProvided);
    let combined = ApiKeyError::NotProvided.message();
    assert!(
        combined.contains("--api-key-file") && combined.contains(ENV_KEY_FILE),
        "expected NotProvided message, got: {combined}"
    );
}

#[test]
fn empty_file_via_flag_errors() {
    let err = key_from_file_contents("/k", read_ok("")).expect_err("errors");
    match err {
        ApiKeyError::EmptyFile(p) => assert_eq!(p, "/k"),
        other => panic!("expected EmptyFile, got {other:?}"),
    }
}

#[test]
fn whitespace_only_file_errors_as_empty() {
    let err = key_from_file_contents("/k", read_ok("   \n  \t  \n")).expect_err("errors");
    assert!(matches!(err, ApiKeyError::EmptyFile(_)));
}

#[test]
fn nonexistent_file_errors_with_path() {
    let phantom = "/definitely/does/not/exist/key";
    let read = Err(std::io::Error::new(std::io::ErrorKind::NotFound, "not found"));
    let err = key_from_file_contents(phantom, read).expect_err("errors");
    match err {
        ApiKeyError::ReadFailed { path, .. } => assert_eq!(path, phantom),
        other => panic!("expected ReadFailed, got {other:?}"),
    }
}

#[test]
fn trims_trailing_whitespace_from_file_contents() {
    let key = key_from_file_contents("/k", read_ok("  the-key  \n\n")).expect("resolves");
    assert_eq!(key, "the-key");
}

#[test]
fn empty_raw_env_falls_through_to_not_provided() {
    let env = env_from(&[(ENV_KEY, "   \n")]);
    assert_eq!(plan(&Sources::default(), &env), KeyPlan::NotProvided);
}

#[test]
fn empty_raw_env_falls_through_to_config_file_source() {
    let env = env_from(&[(ENV_KEY, "   ")]);
    let sources = Sources { config_file: Some("/cfgkey".into()), ..Sources::default() };
    let p = plan(&sources, &env);
    assert_eq!(p, KeyPlan::ReadFile { path: "/cfgkey".into(), source: ApiKeySource::ConfigFile });
}

#[test]
fn config_file_pointer_used_when_no_flag_or_env() {
    let sources = Sources { config_file: Some("/cfgkey".into()), ..Sources::default() };
    let p = plan(&sources, &EnvVars::empty());
    assert_eq!(p, KeyPlan::ReadFile { path: "/cfgkey".into(), source: ApiKeySource::ConfigFile });
    let key = key_from_file_contents("/cfgkey", read_ok("from-config-file")).expect("resolves");
    assert_eq!(key, "from-config-file");
}

#[test]
fn config_raw_used_when_no_other_source() {
    let sources = Sources { config_raw: Some("from-config-raw".into()), ..Sources::default() };
    let p = plan(&sources, &EnvVars::empty());
    assert_eq!(p, KeyPlan::Raw { key: "from-config-raw".into(), source: ApiKeySource::ConfigRaw });
}

#[test]
fn config_file_pointer_wins_over_config_raw() {
    let sources = Sources {
        config_file: Some("/ptr".into()),
        config_raw: Some("from-config-raw".into()),
        ..Sources::default()
    };
    let p = plan(&sources, &EnvVars::empty());
    assert_eq!(p, KeyPlan::ReadFile { path: "/ptr".into(), source: ApiKeySource::ConfigFile });
    let key = key_from_file_contents("/ptr", read_ok("from-config-pointer")).expect("resolves");
    assert_eq!(key, "from-config-pointer");
}

#[test]
fn env_wins_over_config_sources() {
    let sources = Sources { config_raw: Some("from-config-raw".into()), ..Sources::default() };
    let env = env_from(&[(ENV_KEY, "from-raw-env")]);
    let p = plan(&sources, &env);
    assert_eq!(p, KeyPlan::Raw { key: "from-raw-env".into(), source: ApiKeySource::EnvRaw });
}

#[test]
fn warns_on_lax_file_permissions() {
    let msg = lax_permission_warning("/k", 0o100644).expect("warns");
    assert!(msg.contains("warning"), "expected warning, got: {msg}");
    assert!(msg.contains("chmod 600"), "expected fix hint, got: {msg}");
    assert_eq!(msg, "warning: API key file /k has lax permissions (644); recommend `chmod 600 /k`");
}

#[test]
fn no_warning_on_tight_file_permissions() {
    assert!(lax_permission_warning("/k", 0o100600).is_none());
}

#[test]
fn source_labels() {
    assert_eq!(ApiKeySource::Flag.as_user_label(), "--api-key-file flag");
    assert_eq!(ApiKeySource::EnvFile.as_user_label(), "env: UNIFI_PROTECT_API_KEY_FILE");
    assert_eq!(ApiKeySource::EnvRaw.as_user_label(), "env: UNIFI_PROTECT_API_KEY");
    assert_eq!(ApiKeySource::ConfigFile.as_user_label(), "config file: api_key_file");
    assert_eq!(ApiKeySource::ConfigRaw.as_user_label(), "config file: api_key");
}

#[test]
fn empty_file_message_names_path() {
    assert_eq!(ApiKeyError::EmptyFile("/k".into()).message(), "API key file /k is empty");
}

#[test]
fn resolve_reads_the_chosen_key_file_and_warns_on_lax_mode() {
    let env = env_from(&[(ENV_KEY_FILE, " /k "), (ENV_KEY, "from-raw-env")]);
    let r = resolve(&Sources::default(), &env, Some(read_ok("  from-env-file\n")), Some(0o100644));
    match r.key {
        Ok((k, s)) => {
            assert_eq!(k, "from-env-file");
            assert_eq!(s, ApiKeySource::EnvFile);
        }
        Err(_) => panic!("resolves"),
    }
    let w = r.warning.expect("warns");
    assert!(w.contains("warning") && w.contains("chmod 600 /k"), "{w}");
    let quiet = resolve(&Sources::default(), &env, Some(read_ok("k")), Some(0o100600));
    assert!(quiet.key.is_ok());
    assert!(quiet.warning.is_none());
}

#[test]
fn resolve_never_falls_through_a_failing_key_file() {
    let env = env_from(&[(ENV_KEY, "from-raw-env")]);
    let failed = resolve(
        &sources_flag("/missing"),
        &env,
        Some(Err(std::io::Error::new(std::io::ErrorKind::NotFound, "gone"))),
        None,
    );
    assert!(matches!(failed.key, Err(ApiKeyError::ReadFailed { ref path, .. }) if path == "/missing"));
    assert!(failed.warning.is_none());
    let empty = resolve(&sources_flag("/blank"), &env, Some(read_ok(" \n\t")), Some(0o100644));
    assert!(matches!(empty.key, Err(ApiKeyError::EmptyFile(ref p)) if p == "/blank"));
    assert!(empty.warning.is_none());
}

#[test]
fn resolve_raw_and_missing_sources() {
    let raw = resolve(&Sources::default(), &env_from(&[(ENV_KEY, "  raw-key ")]), None, None);
    assert!(matches!(raw.key, Ok((ref k, ApiKeySource::EnvRaw)) if k == "raw-key"));
    let none = resolve(&Sources::default(), &EnvVars::empty(), None, None);
    assert!(matches!(none.key, Err(ApiKeyError::NotProvided)));
}
