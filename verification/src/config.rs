//! Persistent configuration of the command-line tool.
//!
//! - [`ConfigFile`]: the on-disk schema (TOML), checked by
//!   [`ConfigFile::validate`].
//! - [`resolve_path`]: which file to load, by precedence `--config` flag >
//!   `UNIFI_PROTECT_CONFIG_FILE` > the XDG default.
//! - [`load_outcome`]: what loading that file yields, once it has been read
//!   and parsed.
//! - [`resolve`]: merges flags, environment and file into an
//!   [`EffectiveConfig`], by precedence flag > env > file > default.
//!
//! Paths are held as UTF-8 text.

use vstd::prelude::*;

use crate::api_key::io_error_text;
use crate::env::{nonblank, EnvVars};
use std::io::Error as IoError;
use toml::de::Error as TomlError;
use crate::logging::LogLevel;
use crate::text::{
    ascii_lowercase, ascii_lowercase_owned, is_blank_str, join_path, join_path_owned, str_eq,
    to_owned, trim, trim_owned, chars_of, string_from_range, push_str,
};

verus! {

#[verifier::external_type_specification]
#[verifier::external_body]
pub struct ExIoError(IoError);

#[verifier::external_type_specification]
#[verifier::external_body]
pub struct ExTomlError(TomlError);

#[verifier::external_type_specification]
#[verifier::external_body]
pub struct ExXdg(etcetera::base_strategy::Xdg);

#[verifier::external_type_specification]
#[verifier::external_body]
pub struct ExHomeDirError(etcetera::HomeDirError);

/// Env var that picks which config file to load.
pub const ENV_CONFIG_FILE: &'static str = "UNIFI_PROTECT_CONFIG_FILE";

/// On-disk config schema. Every field is optional so the resolver can
/// tell "absent" from an explicit value.
#[derive(Debug, Clone)]
pub struct ConfigFile {
    pub host: Option<String>,
    pub base_url: Option<String>,
    pub api_key_file: Option<String>,
    pub insecure: Option<bool>,
    pub json: Option<bool>,
    pub log_level: Option<LogLevel>,
}

/// The text of an optional string.
pub open spec fn opt_view(o: Option<String>) -> Option<Seq<char>> {
    match o {
        Some(s) => Some(s@),
        None => None,
    }
}

/// Set, but empty after trimming.
pub open spec fn opt_blank(o: Option<String>) -> bool {
    o matches Some(s) && trim(s@).len() == 0
}

/// Whether a parsed file passes its own checks: not both `host` and
/// `base_url`, and none of `host`, `base_url`, `api_key_file` blank.
pub open spec fn file_checks_pass(f: ConfigFile) -> bool {
    !(f.host is Some && f.base_url is Some) && !opt_blank(f.host) && !opt_blank(f.base_url)
        && !opt_blank(f.api_key_file)
}

/// `e` is the error the first failing check of `f` reports: both `host`
/// and `base_url`, else the first of `host`, `base_url`, `api_key_file`
/// that is blank.
pub open spec fn file_check_error(f: ConfigFile, e: ConfigError) -> bool {
    if f.host is Some && f.base_url is Some {
        e is HostAndBaseUrl
    } else if opt_blank(f.host) {
        e matches ConfigError::EmptyValue { field } && field@ == "host"@
    } else if opt_blank(f.base_url) {
        e matches ConfigError::EmptyValue { field } && field@ == "base_url"@
    } else if opt_blank(f.api_key_file) {
        e matches ConfigError::EmptyValue { field } && field@ == "api_key_file"@
    } else {
        false
    }
}

impl ConfigFile {
    /// No field set.
    pub fn default() -> (c: ConfigFile)
        ensures
            c.host is None,
            c.base_url is None,
            c.api_key_file is None,
            c.insecure is None,
            c.json is None,
            c.log_level is None,
    {
        ConfigFile {
            host: None,
            base_url: None,
            api_key_file: None,
            insecure: None,
            json: None,
            log_level: None,
        }
    }

    /// File-level checks, after parsing:
    /// - `host` and `base_url` are mutually exclusive;
    /// - `host`, `base_url` and `api_key_file`, when set, must not be
    ///   empty or whitespace-only (checked in that order).
    pub fn validate(&self) -> (r: Result<(), ConfigError>)
        ensures
            r is Ok <==> file_checks_pass(*self),
            r matches Err(e) ==> file_check_error(*self, e),
    {
        if self.host.is_some() && self.base_url.is_some() {
            return Err(ConfigError::HostAndBaseUrl);
        }
        if let Some(s) = &self.host {
            if is_blank_str(s.as_str()) {
                return Err(ConfigError::EmptyValue { field: "host" });
            }
        }
        if let Some(s) = &self.base_url {
            if is_blank_str(s.as_str()) {
                return Err(ConfigError::EmptyValue { field: "base_url" });
            }
        }
        if let Some(p) = &self.api_key_file {
            if is_blank_str(p.as_str()) {
                return Err(ConfigError::EmptyValue { field: "api_key_file" });
            }
        }
        Ok(())
    }
}

/// Which input picked the config-file path. The flag and the env var are
/// authoritative (a missing file is an error); the XDG default is
/// opportunistic (a missing file means "no config").
#[derive(Debug, Clone, Copy, PartialEq, Eq, Structural)]
pub enum FileDiscoverySource {
    Flag,
    Env,
    XdgDefault,
}

pub open spec fn source_label(s: FileDiscoverySource) -> Seq<char> {
    match s {
        FileDiscoverySource::Flag => "--config flag"@,
        FileDiscoverySource::Env => "UNIFI_PROTECT_CONFIG_FILE env var"@,
        FileDiscoverySource::XdgDefault => "XDG default path"@,
    }
}

impl FileDiscoverySource {
    /// How the source is named in messages.
    pub fn label(self) -> (s: &'static str)
        ensures
            s@ == source_label(self),
    {
        match self {
            FileDiscoverySource::Flag => "--config flag",
            FileDiscoverySource::Env => "UNIFI_PROTECT_CONFIG_FILE env var",
            FileDiscoverySource::XdgDefault => "XDG default path",
        }
    }
}

/// Errors of loading and resolving the configuration.
#[derive(Debug)]
pub enum ConfigError {
    /// Reading the config file failed (other than "not found").
    Read { path: String, source: IoError },
    /// The config file is not valid TOML for the schema.
    Parse { path: String, source: TomlError },
    /// Both `host` and `base_url` are set.
    HostAndBaseUrl,
    /// An authoritative source pointed at a missing file.
    ExplicitMissing { path: String, via: FileDiscoverySource },
    /// The XDG base directory could not be determined.
    NoConfigDir(String),
    /// A boolean env var holds something other than the boolish words.
    BadEnvBool { name: &'static str, value: String },
    /// A string field of the config file is empty or whitespace-only.
    EmptyValue { field: &'static str },
}

/// `Display` of a TOML parse error: where and why parsing failed. Nothing
/// about its text is stated.
#[verifier::external_body]
fn toml_error_text(e: &TomlError) -> (r: String) {
    e.to_string()
}

impl ConfigError {
    /// The human-readable message.
    pub fn message(&self) -> (m: String)
        ensures
            self matches ConfigError::Read { path, .. } ==> exists|t: Seq<char>|
                m@ == "reading config file "@ + path@ + ": "@ + t,
            self matches ConfigError::Parse { path, .. } ==> exists|t: Seq<char>|
                m@ == "parsing config file "@ + path@ + ": "@ + t,
            self is HostAndBaseUrl ==> m@ == "config file: cannot set both `host` and `base_url`"@,
            self matches ConfigError::ExplicitMissing { path, via } ==> m@ == "config file not found at "@
                + path@ + "\n(referenced via "@ + source_label(*via) + ")"@,
            self matches ConfigError::NoConfigDir(e) ==> m@ == "could not determine config directory: "@
                + e@,
            self matches ConfigError::BadEnvBool { name, value } ==> m@ == "env `"@ + name@
                + "` has invalid value `"@ + value@
                + "`: expected one of 1/0, true/false, yes/no, on/off (case-insensitive)"@,
            self matches ConfigError::EmptyValue { field } ==> m@ == "config file: `"@ + field@
                + "` is empty. Comment the line out or remove the entry instead of setting it to an empty value."@,
    {
        match self {
            ConfigError::Read { path, source } => {
                let mut m = to_owned("reading config file ");
                push_str(&mut m, path.as_str());
                push_str(&mut m, ": ");
                let t = io_error_text(source);
                push_str(&mut m, t.as_str());
                m
            },
            ConfigError::Parse { path, source } => {
                let mut m = to_owned("parsing config file ");
                push_str(&mut m, path.as_str());
                push_str(&mut m, ": ");
                let t = toml_error_text(source);
                push_str(&mut m, t.as_str());
                m
            },
            ConfigError::HostAndBaseUrl => to_owned(
                "config file: cannot set both `host` and `base_url`",
            ),
            ConfigError::ExplicitMissing { path, via } => {
                let mut m = to_owned("config file not found at ");
                push_str(&mut m, path.as_str());
                push_str(&mut m, "\n(referenced via ");
                push_str(&mut m, via.label());
                push_str(&mut m, ")");
                m
            },
            ConfigError::NoConfigDir(e) => {
                let mut m = to_owned("could not determine config directory: ");
                push_str(&mut m, e.as_str());
                m
            },
            ConfigError::BadEnvBool { name, value } => {
                let mut m = to_owned("env `");
                push_str(&mut m, name);
                push_str(&mut m, "` has invalid value `");
                push_str(&mut m, value.as_str());
                push_str(
                    &mut m,
                    "`: expected one of 1/0, true/false, yes/no, on/off (case-insensitive)",
                );
                m
            },
            ConfigError::EmptyValue { field } => {
                let mut m = to_owned("config file: `");
                push_str(&mut m, field);
                push_str(
                    &mut m,
                    "` is empty. Comment the line out or remove the entry instead of setting it to an empty value.",
                );
                m
            },
        }
    }
}

/// Outcome of a successful load: the parsed file, where it came from and
/// which source picked that path.
#[derive(Debug, Clone)]
pub struct LoadedConfig {
    pub file: ConfigFile,
    pub path: String,
    pub source: FileDiscoverySource,
}

/// `etcetera::choose_base_strategy()`: the platform's base-directory
/// strategy (XDG here), or an error when there is no home directory. It
/// reads the environment, so nothing about the outcome is stated.
#[verifier::external_body]
fn choose_base_strategy() -> (r: Result<etcetera::base_strategy::Xdg, etcetera::HomeDirError>) {
    etcetera::choose_base_strategy()
}

/// `BaseStrategy::config_dir` of the XDG strategy, as text. It comes from
/// `XDG_CONFIG_HOME` or the home directory, so nothing about it is stated.
#[verifier::external_body]
fn strategy_config_dir(s: &etcetera::base_strategy::Xdg) -> (r: String) {
    etcetera::BaseStrategy::config_dir(s).to_string_lossy().into_owned()
}

/// The message of `etcetera::HomeDirError` (its `Display`), which its
/// source writes as the constant "could not locate home directory".
#[verifier::external_body]
fn home_dir_error_text(e: &etcetera::HomeDirError) -> (r: String)
    ensures
        r@ == "could not locate home directory"@,
{
    e.to_string()
}

/// The config path under a configuration directory.
pub open spec fn config_path_under(dir: Seq<char>) -> Seq<char> {
    join_path(join_path(dir, "ferro-protect"@), "config.toml"@)
}

/// The XDG default config path given what looking up the configuration
/// directory gave: `<dir>/ferro-protect/config.toml`, or `NoConfigDir`
/// with the lookup's message.
pub fn default_path_from(config_dir: Result<String, String>) -> (r: Result<String, ConfigError>)
    ensures
        config_dir matches Ok(d) ==> (r matches Ok(p) && p@ == config_path_under(d@)),
        config_dir matches Err(m) ==> (r matches Err(ConfigError::NoConfigDir(t)) && t@ == m@),
{
    match config_dir {
        Ok(dir) => {
            let app_dir = join_path_owned(dir.as_str(), "ferro-protect");
            Ok(join_path_owned(app_dir.as_str(), "config.toml"))
        },
        Err(m) => Err(ConfigError::NoConfigDir(m)),
    }
}

/// The XDG default config path, `<config dir>/ferro-protect/config.toml`.
pub fn xdg_default_path() -> (r: Result<String, ConfigError>)
    ensures
        r matches Ok(p) ==> exists|dir: Seq<char>| p@ == config_path_under(dir),
        r matches Err(e) ==> (e matches ConfigError::NoConfigDir(m) && m@
            == "could not locate home directory"@),
{
    let config_dir = match choose_base_strategy() {
        Ok(strategy) => Ok(strategy_config_dir(&strategy)),
        Err(e) => Err(home_dir_error_text(&e)),
    };
    default_path_from(config_dir)
}

/// Which config file to load: the `--config` flag, else a non-blank
/// `UNIFI_PROTECT_CONFIG_FILE` (trimmed), else the XDG default. Whether
/// the file exists is not checked.
pub fn resolve_path(flag: Option<&str>, env: &EnvVars) -> (r: Result<
    (String, FileDiscoverySource),
    ConfigError,
>)
    ensures
        flag matches Some(f) ==> (r matches Ok((p, s)) && p@ == f@ && s == FileDiscoverySource::Flag),
        flag is None ==> match nonblank(env.var("UNIFI_PROTECT_CONFIG_FILE"@)) {
            Some(v) => r matches Ok((p, s)) && p@ == v && s == FileDiscoverySource::Env,
            None => match r {
                Ok((p, s)) => s == FileDiscoverySource::XdgDefault && exists|dir: Seq<char>|
                    p@ == config_path_under(dir),
                Err(e) => e matches ConfigError::NoConfigDir(m) && m@
                    == "could not locate home directory"@,
            },
        },
{
    if let Some(p) = flag {
        return Ok((to_owned(p), FileDiscoverySource::Flag));
    }
    if let Some(p) = env.get_trimmed(ENV_CONFIG_FILE) {
        return Ok((p, FileDiscoverySource::Env));
    }
    match xdg_default_path() {
        Ok(p) => Ok((p, FileDiscoverySource::XdgDefault)),
        Err(e) => Err(e),
    }
}

/// What reading and parsing the chosen config file produced.
#[derive(Debug)]
pub enum ConfigFileRead {
    /// There is no file at the path.
    NotFound,
    /// Reading failed for another reason.
    ReadFailed(IoError),
    /// The text is not valid TOML for the schema.
    ParseFailed(TomlError),
    /// The parsed file.
    Parsed(ConfigFile),
}

/// `~/rest` and `~` expanded against `home`; any other path, or no home,
/// leaves the path as it is.
pub open spec fn expand_tilde_spec(p: Seq<char>, home: Option<Seq<char>>) -> Seq<char> {
    match home {
        None => p,
        Some(h) => if p.len() >= 2 && p[0] == '~' && p[1] == '/' {
            join_path(h, p.subrange(2, p.len() as int))
        } else if p.len() == 1 && p[0] == '~' {
            h
        } else {
            p
        },
    }
}

/// Replaces a leading `~/` (or a bare `~`) with `home`. `~user` forms are
/// not supported and are kept, as is any path when `home` is unknown.
pub fn expand_tilde_with_home(p: &str, home: Option<&str>) -> (r: String)
    ensures
        r@ == expand_tilde_spec(p@, match home {
            Some(h) => Some(h@),
            None => None,
        }),
{
    let h = match home {
        Some(h) => h,
        None => return to_owned(p),
    };
    let v = chars_of(p);
    if v.len() >= 2 && v[0] == '~' && v[1] == '/' {
        let rest = string_from_range(&v, 2, v.len());
        return join_path_owned(h, rest.as_str());
    }
    if v.len() == 1 && v[0] == '~' {
        return to_owned(h);
    }
    to_owned(p)
}

/// The file with its `api_key_file` tilde-expanded.
pub open spec fn expanded_key_file(f: Option<String>, home: Option<Seq<char>>) -> Option<Seq<char>> {
    match f {
        Some(p) => Some(expand_tilde_spec(p@, home)),
        None => None,
    }
}

/// What loading the config file at `path`, picked by `source`, yields
/// given what reading and parsing it produced. `home` is `$HOME`, used to
/// expand a leading `~` in `api_key_file`.
///
/// - missing file: an error for the flag and the env var, "no config"
///   for the XDG default;
/// - read or parse failure: the matching error, naming `path`;
/// - parsed: the file's own checks ([`ConfigFile::validate`]), then the
///   loaded config with `api_key_file` tilde-expanded.
pub fn load_outcome(path: String, source: FileDiscoverySource, read: ConfigFileRead, home: Option<&str>) -> (r:
    Result<Option<LoadedConfig>, ConfigError>)
    ensures
        read is NotFound && source == FileDiscoverySource::XdgDefault ==> r matches Ok(None),
        read is NotFound && source != FileDiscoverySource::XdgDefault ==> (r matches Err(
            ConfigError::ExplicitMissing { path: p, via },
        ) && p@ == path@ && via == source),
        read is ReadFailed ==> (r matches Err(ConfigError::Read { path: p, .. }) && p@ == path@),
        read is ParseFailed ==> (r matches Err(ConfigError::Parse { path: p, .. }) && p@ == path@),
        read matches ConfigFileRead::Parsed(f) ==> match r {
            Ok(Some(lc)) => {
                &&& lc.path@ == path@
                &&& lc.source == source
                &&& opt_view(lc.file.api_key_file) == expanded_key_file(f.api_key_file, match home {
                    Some(h) => Some(h@),
                    None => None,
                })
                &&& opt_view(lc.file.host) == opt_view(f.host)
                &&& opt_view(lc.file.base_url) == opt_view(f.base_url)
                &&& lc.file.insecure == f.insecure
                &&& lc.file.json == f.json
                &&& lc.file.log_level == f.log_level
                &&& file_checks_pass(f)
            },
            Ok(None) => false,
            Err(e) => !file_checks_pass(f) && file_check_error(f, e),
        },
{
    match read {
        ConfigFileRead::NotFound => match source {
            FileDiscoverySource::Flag | FileDiscoverySource::Env => Err(
                ConfigError::ExplicitMissing { path, via: source },
            ),
            FileDiscoverySource::XdgDefault => Ok(None),
        },
        ConfigFileRead::ReadFailed(e) => Err(ConfigError::Read { path, source: e }),
        ConfigFileRead::ParseFailed(e) => Err(ConfigError::Parse { path, source: e }),
        ConfigFileRead::Parsed(f) => {
            match f.validate() {
                Err(e) => return Err(e),
                Ok(()) => {},
            }
            let api_key_file = match &f.api_key_file {
                Some(p) => Some(expand_tilde_with_home(p.as_str(), home)),
                None => None,
            };
            let file = ConfigFile {
                host: f.host,
                base_url: f.base_url,
                api_key_file,
                insecure: f.insecure,
                json: f.json,
                log_level: f.log_level,
            };
            Ok(Some(LoadedConfig { file, path, source }))
        },
    }
}

/// Flag inputs to [`resolve`]; `None` means the flag was not passed.
#[derive(Debug, Clone)]
pub struct Flags {
    pub host: Option<String>,
    pub base_url: Option<String>,
    pub api_key_file: Option<String>,
    pub insecure: Option<bool>,
    pub json: Option<bool>,
    pub log_level: Option<LogLevel>,
}

impl Flags {
    /// No flag passed.
    pub fn default() -> (f: Flags)
        ensures
            f.host is None,
            f.base_url is None,
            f.api_key_file is None,
            f.insecure is None,
            f.json is None,
            f.log_level is None,
    {
        Flags {
            host: None,
            base_url: None,
            api_key_file: None,
            insecure: None,
            json: None,
            log_level: None,
        }
    }
}

/// The configuration in effect after merging flags, env and file.
#[derive(Debug)]
pub struct EffectiveConfig {
    pub host: Option<String>,
    pub base_url: Option<String>,
    pub api_key_file: Option<String>,
    pub insecure: bool,
    pub json: bool,
    pub log_level: LogLevel,
}

/// A string setting: the flag as given, else a non-blank env value
/// (trimmed), else the file value (trimmed).
pub open spec fn pick_string(flag: Option<Seq<char>>, env: Option<Seq<char>>, file: Option<Seq<char>>) -> Option<
    Seq<char>,
> {
    match flag {
        Some(v) => Some(v),
        None => match nonblank(env) {
            Some(v) => Some(v),
            None => match file {
                Some(f) => Some(trim(f)),
                None => None,
            },
        },
    }
}

/// A path setting: the flag as given, else a non-blank env value
/// (trimmed), else the file value as it is.
pub open spec fn pick_path(flag: Option<Seq<char>>, env: Option<Seq<char>>, file: Option<Seq<char>>) -> Option<
    Seq<char>,
> {
    match flag {
        Some(v) => Some(v),
        None => match nonblank(env) {
            Some(v) => Some(v),
            None => file,
        },
    }
}

/// A boolean setting: the flag, else a non-blank env value read as a
/// boolish word (`None`: the env value is not one), else the file value,
/// else `default`.
pub open spec fn pick_bool(flag: Option<bool>, env: Option<Seq<char>>, file: Option<bool>, default: bool) -> Option<
    bool,
> {
    match flag {
        Some(v) => Some(v),
        None => match nonblank(env) {
            Some(v) => parse_boolish_spec(v),
            None => match file {
                Some(b) => Some(b),
                None => Some(default),
            },
        },
    }
}

/// The boolish vocabulary: `1`/`0`, `true`/`false`, `yes`/`no`,
/// `on`/`off`, case-insensitive, surrounding whitespace ignored.
pub open spec fn parse_boolish_spec(s: Seq<char>) -> Option<bool> {
    let l = ascii_lowercase(trim(s));
    if l == "1"@ || l == "true"@ || l == "yes"@ || l == "on"@ {
        Some(true)
    } else if l == "0"@ || l == "false"@ || l == "no"@ || l == "off"@ {
        Some(false)
    } else {
        None
    }
}

/// Reads a boolish word; `None` for anything else.
pub fn parse_boolish(s: &str) -> (r: Option<bool>)
    ensures
        r == parse_boolish_spec(s@),
{
    let t = trim_owned(s);
    let l = ascii_lowercase_owned(t.as_str());
    let l = l.as_str();
    if str_eq(l, "1") || str_eq(l, "true") || str_eq(l, "yes") || str_eq(l, "on") {
        Some(true)
    } else if str_eq(l, "0") || str_eq(l, "false") || str_eq(l, "no") || str_eq(l, "off") {
        Some(false)
    } else {
        None
    }
}

fn opt_to_owned(o: Option<&String>) -> (r: Option<String>)
    ensures
        opt_view(r) == match o {
            Some(s) => Some(s@),
            None => None,
        },
{
    match o {
        Some(s) => Some(to_owned(s.as_str())),
        None => None,
    }
}

fn resolve_string(env_name: &str, flag: Option<&String>, env: &EnvVars, file: Option<&String>) -> (r:
    Option<String>)
    ensures
        opt_view(r) == pick_string(
            match flag {
                Some(s) => Some(s@),
                None => None,
            },
            env.var(env_name@),
            match file {
                Some(s) => Some(s@),
                None => None,
            },
        ),
{
    if let Some(v) = flag {
        return Some(to_owned(v.as_str()));
    }
    if let Some(v) = env.get_trimmed(env_name) {
        return Some(v);
    }
    match file {
        Some(v) => Some(trim_owned(v.as_str())),
        None => None,
    }
}

fn resolve_path_field(env_name: &str, flag: Option<&String>, env: &EnvVars, file: Option<&String>) -> (r:
    Option<String>)
    ensures
        opt_view(r) == pick_path(
            match flag {
                Some(s) => Some(s@),
                None => None,
            },
            env.var(env_name@),
            match file {
                Some(s) => Some(s@),
                None => None,
            },
        ),
{
    if let Some(p) = flag {
        return Some(to_owned(p.as_str()));
    }
    if let Some(v) = env.get_trimmed(env_name) {
        return Some(v);
    }
    opt_to_owned(file)
}

fn resolve_bool(env_name: &'static str, flag: Option<bool>, env: &EnvVars, file: Option<bool>, default: bool) -> (r:
    Result<bool, ConfigError>)
    ensures
        match pick_bool(flag, env.var(env_name@), file, default) {
            Some(b) => r matches Ok(v) && v == b,
            None => r matches Err(ConfigError::BadEnvBool { name, value }) && name@ == env_name@
                && Some(value@) == env.var(env_name@),
        },
{
    if let Some(v) = flag {
        return Ok(v);
    }
    if let Some(raw) = env.get(env_name) {
        let trimmed = trim_owned(raw.as_str());
        if !is_blank_str(trimmed.as_str()) {
            proof {
                crate::env::lemma_trim_idempotent(raw@);
            }
            return match parse_boolish(trimmed.as_str()) {
                Some(b) => Ok(b),
                None => Err(ConfigError::BadEnvBool { name: env_name, value: raw }),
            };
        }
        proof {
            crate::env::lemma_trim_idempotent(raw@);
        }
    }
    match file {
        Some(b) => Ok(b),
        None => Ok(default),
    }
}

/// The file's value of a string field, if a file is loaded.
pub open spec fn file_string(file: Option<&LoadedConfig>, pick: spec_fn(ConfigFile) -> Option<String>) -> Option<
    Seq<char>,
> {
    match file {
        Some(lc) => opt_view(pick(lc.file)),
        None => None,
    }
}

/// The file's value of a boolean field, if a file is loaded.
pub open spec fn file_bool(file: Option<&LoadedConfig>, pick: spec_fn(ConfigFile) -> Option<bool>) -> Option<bool> {
    match file {
        Some(lc) => pick(lc.file),
        None => None,
    }
}

/// The merged `host`.
pub open spec fn host_spec(flags: Flags, file: Option<&LoadedConfig>, env: &EnvVars) -> Option<Seq<char>> {
    pick_string(
        opt_view(flags.host),
        env.var("UNIFI_PROTECT_HOST"@),
        file_string(file, |c: ConfigFile| c.host),
    )
}

/// The merged `base_url`.
pub open spec fn base_url_spec(flags: Flags, file: Option<&LoadedConfig>, env: &EnvVars) -> Option<Seq<char>> {
    pick_string(
        opt_view(flags.base_url),
        env.var("UNIFI_PROTECT_BASE_URL"@),
        file_string(file, |c: ConfigFile| c.base_url),
    )
}

/// `host` and `base_url` each come from the flag when it is passed, as
/// given; else from a non-blank `UNIFI_PROTECT_HOST` /
/// `UNIFI_PROTECT_BASE_URL`, trimmed; else from the config file, trimmed;
/// else they are unset.
pub proof fn lemma_host_and_base_url_precedence(flags: Flags, file: Option<&LoadedConfig>, env: &EnvVars)
    ensures
        flags.host matches Some(x) ==> host_spec(flags, file, env) == Some(x@),
        flags.host is None && (env.var("UNIFI_PROTECT_HOST"@) matches Some(v) && trim(v).len() > 0)
            ==> host_spec(flags, file, env) == Some(trim(env.var("UNIFI_PROTECT_HOST"@)->Some_0)),
        flags.host is None && !(env.var("UNIFI_PROTECT_HOST"@) matches Some(v) && trim(v).len() > 0)
            ==> host_spec(flags, file, env) == match file {
            Some(lc) => match lc.file.host {
                Some(f) => Some(trim(f@)),
                None => None,
            },
            None => None,
        },
        flags.base_url matches Some(x) ==> base_url_spec(flags, file, env) == Some(x@),
        flags.base_url is None && (env.var("UNIFI_PROTECT_BASE_URL"@) matches Some(v) && trim(v).len() > 0)
            ==> base_url_spec(flags, file, env) == Some(trim(env.var("UNIFI_PROTECT_BASE_URL"@)->Some_0)),
        flags.base_url is None && !(env.var("UNIFI_PROTECT_BASE_URL"@) matches Some(v) && trim(v).len() > 0)
            ==> base_url_spec(flags, file, env) == match file {
            Some(lc) => match lc.file.base_url {
                Some(f) => Some(trim(f@)),
                None => None,
            },
            None => None,
        },
{
}

/// The merged `api_key_file`.
pub open spec fn api_key_file_spec(flags: Flags, file: Option<&LoadedConfig>, env: &EnvVars) -> Option<
    Seq<char>,
> {
    pick_path(
        opt_view(flags.api_key_file),
        env.var("UNIFI_PROTECT_API_KEY_FILE"@),
        file_string(file, |c: ConfigFile| c.api_key_file),
    )
}

/// The merged `insecure` (`None`: the env value is not boolish).
pub open spec fn insecure_spec(flags: Flags, file: Option<&LoadedConfig>, env: &EnvVars) -> Option<bool> {
    pick_bool(
        flags.insecure,
        env.var("UNIFI_PROTECT_INSECURE"@),
        file_bool(file, |c: ConfigFile| c.insecure),
        false,
    )
}

/// The merged `json` (`None`: the env value is not boolish).
pub open spec fn json_spec(flags: Flags, file: Option<&LoadedConfig>, env: &EnvVars) -> Option<bool> {
    pick_bool(
        flags.json,
        env.var("UNIFI_PROTECT_JSON"@),
        file_bool(file, |c: ConfigFile| c.json),
        false,
    )
}

/// The merged `log_level`: flag, else file, else `warn`. The env vars of
/// the logger are not folded in.
pub open spec fn log_level_spec(flags: Flags, file: Option<&LoadedConfig>) -> LogLevel {
    match flags.log_level {
        Some(l) => l,
        None => match file {
            Some(lc) => match lc.file.log_level {
                Some(l) => l,
                None => LogLevel::Warn,
            },
            None => LogLevel::Warn,
        },
    }
}

/// The other settings follow the same order. `api_key_file`: the flag
/// as given, else a non-blank `UNIFI_PROTECT_API_KEY_FILE` (trimmed),
/// else the file's path as it is. `insecure` and `json`: the flag, else a
/// non-blank `UNIFI_PROTECT_INSECURE` / `UNIFI_PROTECT_JSON` read as a
/// boolish word (none when it is not one), else the file, else `false`.
/// `log_level`: the flag, else the file, else `warn`.
pub proof fn lemma_other_settings_precedence(flags: Flags, file: Option<&LoadedConfig>, env: &EnvVars)
    ensures
        flags.api_key_file matches Some(x) ==> api_key_file_spec(flags, file, env) == Some(x@),
        flags.api_key_file is None && (env.var("UNIFI_PROTECT_API_KEY_FILE"@) matches Some(v) && trim(v).len()
            > 0) ==> api_key_file_spec(flags, file, env) == Some(
            trim(env.var("UNIFI_PROTECT_API_KEY_FILE"@)->Some_0),
        ),
        flags.api_key_file is None && !(env.var("UNIFI_PROTECT_API_KEY_FILE"@) matches Some(v) && trim(
            v,
        ).len() > 0) ==> api_key_file_spec(flags, file, env) == match file {
            Some(lc) => match lc.file.api_key_file {
                Some(f) => Some(f@),
                None => None,
            },
            None => None,
        },
        flags.insecure matches Some(b) ==> insecure_spec(flags, file, env) == Some(b),
        flags.insecure is None && (env.var("UNIFI_PROTECT_INSECURE"@) matches Some(v) && trim(v).len() > 0)
            ==> insecure_spec(flags, file, env) == parse_boolish_spec(env.var("UNIFI_PROTECT_INSECURE"@)->Some_0),
        flags.insecure is None && !(env.var("UNIFI_PROTECT_INSECURE"@) matches Some(v) && trim(v).len() > 0)
            ==> insecure_spec(flags, file, env) == Some(
            match file {
                Some(lc) => match lc.file.insecure {
                    Some(b) => b,
                    None => false,
                },
                None => false,
            },
        ),
        flags.json matches Some(b) ==> json_spec(flags, file, env) == Some(b),
        flags.json is None && (env.var("UNIFI_PROTECT_JSON"@) matches Some(v) && trim(v).len() > 0)
            ==> json_spec(flags, file, env) == parse_boolish_spec(env.var("UNIFI_PROTECT_JSON"@)->Some_0),
        flags.json is None && !(env.var("UNIFI_PROTECT_JSON"@) matches Some(v) && trim(v).len() > 0)
            ==> json_spec(flags, file, env) == Some(
            match file {
                Some(lc) => match lc.file.json {
                    Some(b) => b,
                    None => false,
                },
                None => false,
            },
        ),
        log_level_spec(flags, file) == match flags.log_level {
            Some(l) => l,
            None => match file {
                Some(lc) => match lc.file.log_level {
                    Some(l) => l,
                    None => LogLevel::Warn,
                },
                None => LogLevel::Warn,
            },
        },
{
    if let Some(v) = env.var("UNIFI_PROTECT_INSECURE"@) {
        crate::env::lemma_trim_idempotent(v);
    }
    if let Some(v) = env.var("UNIFI_PROTECT_JSON"@) {
        crate::env::lemma_trim_idempotent(v);
    }
}

/// Merges flags, env and file into the effective configuration, by
/// precedence flag > env > file > default. Blank env values count as
/// unset; env and file strings are trimmed.
///
/// Errors, in the order checked:
/// - `HostAndBaseUrl` when both end up set, whichever sources they came
///   from;
/// - `BadEnvBool` for `UNIFI_PROTECT_INSECURE`, then for
///   `UNIFI_PROTECT_JSON`, when consulted and not a boolish word.
pub fn resolve(flags: &Flags, file: Option<&LoadedConfig>, env: &EnvVars) -> (r: Result<
    EffectiveConfig,
    ConfigError,
>)
    ensures
        r matches Ok(c) ==> !(c.host is Some && c.base_url is Some),
        host_spec(*flags, file, env) is Some && base_url_spec(*flags, file, env) is Some ==> r matches Err(
            ConfigError::HostAndBaseUrl,
        ),
        !(host_spec(*flags, file, env) is Some && base_url_spec(*flags, file, env) is Some)
            && insecure_spec(*flags, file, env) is None ==> (r matches Err(
            ConfigError::BadEnvBool { name, value },
        ) && name@ == "UNIFI_PROTECT_INSECURE"@ && env.var(name@) == Some(value@)),
        !(host_spec(*flags, file, env) is Some && base_url_spec(*flags, file, env) is Some)
            && insecure_spec(*flags, file, env) is Some && json_spec(*flags, file, env) is None ==> (
        r matches Err(ConfigError::BadEnvBool { name, value }) && name@ == "UNIFI_PROTECT_JSON"@
            && env.var(name@) == Some(value@)),
        !(host_spec(*flags, file, env) is Some && base_url_spec(*flags, file, env) is Some)
            && insecure_spec(*flags, file, env) is Some && json_spec(*flags, file, env) is Some ==> (
        r matches Ok(c) && opt_view(c.host) == host_spec(*flags, file, env) && opt_view(c.base_url)
            == base_url_spec(*flags, file, env) && opt_view(c.api_key_file) == api_key_file_spec(
            *flags,
            file,
            env,
        ) && Some(c.insecure) == insecure_spec(*flags, file, env) && Some(c.json) == json_spec(
            *flags,
            file,
            env,
        ) && c.log_level == log_level_spec(*flags, file)),
{
    let (f_host, f_base, f_key, f_insecure, f_json, f_level) = match file {
        Some(lc) => (
            lc.file.host.as_ref(),
            lc.file.base_url.as_ref(),
            lc.file.api_key_file.as_ref(),
            lc.file.insecure,
            lc.file.json,
            lc.file.log_level,
        ),
        None => (None, None, None, None, None, None),
    };
    let host = resolve_string("UNIFI_PROTECT_HOST", flags.host.as_ref(), env, f_host);
    let base_url = resolve_string("UNIFI_PROTECT_BASE_URL", flags.base_url.as_ref(), env, f_base);
    if host.is_some() && base_url.is_some() {
        return Err(ConfigError::HostAndBaseUrl);
    }
    let api_key_file = resolve_path_field(
        crate::api_key::ENV_KEY_FILE,
        flags.api_key_file.as_ref(),
        env,
        f_key,
    );
    let insecure = match resolve_bool("UNIFI_PROTECT_INSECURE", flags.insecure, env, f_insecure, false) {
        Ok(b) => b,
        Err(e) => return Err(e),
    };
    let json = match resolve_bool("UNIFI_PROTECT_JSON", flags.json, env, f_json, false) {
        Ok(b) => b,
        Err(e) => return Err(e),
    };
    let log_level = match flags.log_level {
        Some(l) => l,
        None => match f_level {
            Some(l) => l,
            None => LogLevel::Warn,
        },
    };
    Ok(EffectiveConfig { host, base_url, api_key_file, insecure, json, log_level })
}

} // verus!
