//! Where the Protect API key comes from, in priority order:
//!
//! 1. `--api-key-file <PATH>` flag (a path; never a raw key on argv);
//! 2. `UNIFI_PROTECT_API_KEY_FILE` env var (a path);
//! 3. `UNIFI_PROTECT_API_KEY` env var (the raw key);
//! 4. config file `api_key_file` field (a path);
//! 5. config file `api_key` field (the raw key).
//!
//! [`plan`] picks the source; for a path, the program reads the file and
//! [`key_from_file_contents`] turns what it read into the key. [`resolve`]
//! does both, given what reading the file and its permission bits gave.
//! Blank env values count as unset.

use vstd::prelude::*;

use crate::config::opt_view;
use crate::env::{nonblank, EnvVars};
use std::io::Error as IoError;
use crate::text::{is_blank_str, push_char, push_str, to_owned, trim, trim_owned};

verus! {

pub const ENV_KEY_FILE: &'static str = "UNIFI_PROTECT_API_KEY_FILE";

pub const ENV_KEY: &'static str = "UNIFI_PROTECT_API_KEY";

/// Which source supplied the key.
#[derive(Debug, Clone, Copy, PartialEq, Eq, Structural)]
pub enum ApiKeySource {
    /// `--api-key-file <PATH>` flag.
    Flag,
    /// `UNIFI_PROTECT_API_KEY_FILE` env var (path).
    EnvFile,
    /// `UNIFI_PROTECT_API_KEY` env var (raw key).
    EnvRaw,
    /// Config file `api_key_file` field (path).
    ConfigFile,
    /// Config file `api_key` field (raw key).
    ConfigRaw,
}

pub open spec fn user_label(s: ApiKeySource) -> Seq<char> {
    match s {
        ApiKeySource::Flag => "--api-key-file flag"@,
        ApiKeySource::EnvFile => "env: UNIFI_PROTECT_API_KEY_FILE"@,
        ApiKeySource::EnvRaw => "env: UNIFI_PROTECT_API_KEY"@,
        ApiKeySource::ConfigFile => "config file: api_key_file"@,
        ApiKeySource::ConfigRaw => "config file: api_key"@,
    }
}

impl ApiKeySource {
    /// How the source is named to the user.
    pub fn as_user_label(self) -> (s: &'static str)
        ensures
            s@ == user_label(self),
    {
        match self {
            ApiKeySource::Flag => "--api-key-file flag",
            ApiKeySource::EnvFile => "env: UNIFI_PROTECT_API_KEY_FILE",
            ApiKeySource::EnvRaw => "env: UNIFI_PROTECT_API_KEY",
            ApiKeySource::ConfigFile => "config file: api_key_file",
            ApiKeySource::ConfigRaw => "config file: api_key",
        }
    }
}

/// Inputs to [`plan`] that do not come from the environment. The two
/// `config_*` fields come from the loaded config file, when there is one.
#[derive(Debug, Clone)]
pub struct Sources {
    pub flag_file: Option<String>,
    pub config_file: Option<String>,
    pub config_raw: Option<String>,
}

impl Sources {
    /// No source.
    pub fn default() -> (s: Sources)
        ensures
            s.flag_file is None,
            s.config_file is None,
            s.config_raw is None,
    {
        Sources { flag_file: None, config_file: None, config_raw: None }
    }
}

/// Failures of key resolution.
#[derive(Debug)]
pub enum ApiKeyError {
    /// No source supplied a key.
    NotProvided,
    /// A referenced key file could not be read.
    ReadFailed { path: String, source: IoError },
    /// A referenced key file is empty after trimming.
    EmptyFile(String),
}

/// The message of `NotProvided`, listing every source.
pub open spec fn not_provided_message() -> Seq<char> {
    "no API key provided. Set one of:\n  * --api-key-file <PATH>\n  * UNIFI_PROTECT_API_KEY_FILE=<PATH> (path to a file containing the key)\n  * UNIFI_PROTECT_API_KEY=<KEY> (raw key in env)\n  * api_key_file = \"<PATH>\" in the config file\n  * api_key = \"<KEY>\" in the config file (discouraged; use api_key_file)"@
}

/// `Display` of an I/O error. Its text comes from the operating
/// system, so nothing about it is stated.
#[verifier::external_body]
pub(crate) fn io_error_text(e: &IoError) -> (r: String) {
    e.to_string()
}

impl ApiKeyError {
    /// The human-readable message.
    pub fn message(&self) -> (m: String)
        ensures
            self is NotProvided ==> m@ == not_provided_message(),
            self matches ApiKeyError::EmptyFile(p) ==> m@ == "API key file "@ + p@ + " is empty"@,
            self matches ApiKeyError::ReadFailed { path, .. } ==> exists|t: Seq<char>|
                m@ == "reading API key from "@ + path@ + ": "@ + t,
    {
        match self {
            ApiKeyError::NotProvided => to_owned(
                "no API key provided. Set one of:\n  * --api-key-file <PATH>\n  * UNIFI_PROTECT_API_KEY_FILE=<PATH> (path to a file containing the key)\n  * UNIFI_PROTECT_API_KEY=<KEY> (raw key in env)\n  * api_key_file = \"<PATH>\" in the config file\n  * api_key = \"<KEY>\" in the config file (discouraged; use api_key_file)",
            ),
            ApiKeyError::ReadFailed { path, source } => {
                let mut m = to_owned("reading API key from ");
                push_str(&mut m, path.as_str());
                push_str(&mut m, ": ");
                let t = io_error_text(source);
                push_str(&mut m, t.as_str());
                m
            },
            ApiKeyError::EmptyFile(p) => {
                let mut m = to_owned("API key file ");
                push_str(&mut m, p.as_str());
                push_str(&mut m, " is empty");
                m
            },
        }
    }
}

/// What resolution needs done next.
#[derive(Debug, Clone, PartialEq, Eq)]
pub enum KeyPlan {
    /// Read the key from the file at `path`.
    ReadFile { path: String, source: ApiKeySource },
    /// The key itself.
    Raw { key: String, source: ApiKeySource },
    /// No source supplies a key.
    NotProvided,
}

/// The source [`plan`] picks, with its path or key.
pub open spec fn plan_spec(sources: Sources, env: &EnvVars) -> (ApiKeySource, Option<Seq<char>>, bool) {
    // (source, path-or-key, is_path); `None` in the middle means no source.
    match opt_view(sources.flag_file) {
        Some(p) => (ApiKeySource::Flag, Some(p), true),
        None => match nonblank(env.var("UNIFI_PROTECT_API_KEY_FILE"@)) {
            Some(p) => (ApiKeySource::EnvFile, Some(p), true),
            None => match nonblank(env.var("UNIFI_PROTECT_API_KEY"@)) {
                Some(k) => (ApiKeySource::EnvRaw, Some(k), false),
                None => match opt_view(sources.config_file) {
                    Some(p) => (ApiKeySource::ConfigFile, Some(p), true),
                    None => match nonblank(opt_view(sources.config_raw)) {
                        Some(k) => (ApiKeySource::ConfigRaw, Some(k), false),
                        None => (ApiKeySource::ConfigRaw, None, false),
                    },
                },
            },
        },
    }
}

/// Whether `p` carries out the choice `c` of [`plan_spec`].
pub open spec fn plan_matches(p: KeyPlan, c: (ApiKeySource, Option<Seq<char>>, bool)) -> bool {
    match c.1 {
        None => p is NotProvided,
        Some(v) => if c.2 {
            p matches KeyPlan::ReadFile { path, source } && path@ == v && source == c.0
        } else {
            p matches KeyPlan::Raw { key, source } && key@ == v && source == c.0
        },
    }
}

/// Picks the key source by priority: flag file, env file, env raw key,
/// config file pointer, config raw key. Paths from the flag and the
/// config file are taken as given; env values and the config raw key are
/// trimmed, and a blank one falls through to the next source.
pub fn plan(sources: &Sources, env: &EnvVars) -> (p: KeyPlan)
    ensures
        plan_matches(p, plan_spec(*sources, env)),
{
    if let Some(path) = &sources.flag_file {
        return KeyPlan::ReadFile { path: to_owned(path.as_str()), source: ApiKeySource::Flag };
    }
    if let Some(path) = env.get_trimmed(ENV_KEY_FILE) {
        return KeyPlan::ReadFile { path, source: ApiKeySource::EnvFile };
    }
    if let Some(key) = env.get_trimmed(ENV_KEY) {
        return KeyPlan::Raw { key, source: ApiKeySource::EnvRaw };
    }
    if let Some(path) = &sources.config_file {
        return KeyPlan::ReadFile { path: to_owned(path.as_str()), source: ApiKeySource::ConfigFile };
    }
    if let Some(raw) = &sources.config_raw {
        let t = trim_owned(raw.as_str());
        if !is_blank_str(t.as_str()) {
            proof {
                crate::env::lemma_trim_idempotent(raw@);
            }
            return KeyPlan::Raw { key: t, source: ApiKeySource::ConfigRaw };
        }
        proof {
            crate::env::lemma_trim_idempotent(raw@);
        }
    }
    KeyPlan::NotProvided
}

/// Whether `v` is set to something other than blanks.
pub open spec fn filled(v: Option<Seq<char>>) -> bool {
    v matches Some(x) && trim(x).len() > 0
}

/// The key source is the first that applies, in this order: the
/// `--api-key-file` flag (its path as given); a non-blank
/// `UNIFI_PROTECT_API_KEY_FILE` (trimmed path); a non-blank
/// `UNIFI_PROTECT_API_KEY` (the trimmed key itself), whatever the config
/// file holds; the config file's `api_key_file`; a non-blank config
/// `api_key` (trimmed); else none.
pub proof fn lemma_key_source_priority(sources: Sources, env: &EnvVars, p: KeyPlan)
    requires
        plan_matches(p, plan_spec(sources, env)),
    ensures
        sources.flag_file matches Some(f) ==> (p matches KeyPlan::ReadFile { path, source } && path@ == f@
            && source == ApiKeySource::Flag),
        sources.flag_file is None && filled(env.var("UNIFI_PROTECT_API_KEY_FILE"@)) ==> (p matches KeyPlan::ReadFile {
            path,
            source,
        } && path@ == trim(env.var("UNIFI_PROTECT_API_KEY_FILE"@)->Some_0) && source == ApiKeySource::EnvFile),
        sources.flag_file is None && !filled(env.var("UNIFI_PROTECT_API_KEY_FILE"@)) && filled(
            env.var("UNIFI_PROTECT_API_KEY"@),
        ) ==> (p matches KeyPlan::Raw { key, source } && key@ == trim(env.var("UNIFI_PROTECT_API_KEY"@)->Some_0)
            && source == ApiKeySource::EnvRaw),
        sources.flag_file is None && !filled(env.var("UNIFI_PROTECT_API_KEY_FILE"@)) && !filled(
            env.var("UNIFI_PROTECT_API_KEY"@),
        ) && sources.config_file is Some ==> (p matches KeyPlan::ReadFile { path, source } && path@
            == sources.config_file->Some_0@ && source == ApiKeySource::ConfigFile),
        sources.flag_file is None && !filled(env.var("UNIFI_PROTECT_API_KEY_FILE"@)) && !filled(
            env.var("UNIFI_PROTECT_API_KEY"@),
        ) && sources.config_file is None && filled(opt_view(sources.config_raw)) ==> (p matches KeyPlan::Raw {
            key,
            source,
        } && key@ == trim(sources.config_raw->Some_0@) && source == ApiKeySource::ConfigRaw),
        sources.flag_file is None && !filled(env.var("UNIFI_PROTECT_API_KEY_FILE"@)) && !filled(
            env.var("UNIFI_PROTECT_API_KEY"@),
        ) && sources.config_file is None && !filled(opt_view(sources.config_raw)) ==> p is NotProvided,
{
}

/// The key held in a key file, given what reading the file at `path`
/// produced: the contents trimmed, which must not be empty.
pub fn key_from_file_contents(path: &str, read: Result<String, IoError>) -> (r: Result<
    String,
    ApiKeyError,
>)
    ensures
        read is Err ==> (r matches Err(ApiKeyError::ReadFailed { path: p, .. }) && p@ == path@),
        read matches Ok(raw) ==> (if trim(raw@).len() == 0 {
            r matches Err(ApiKeyError::EmptyFile(p)) && p@ == path@
        } else {
            r matches Ok(k) && k@ == trim(raw@)
        }),
{
    match read {
        Err(e) => Err(ApiKeyError::ReadFailed { path: to_owned(path), source: e }),
        Ok(raw) => {
            let t = trim_owned(raw.as_str());
            proof {
                crate::env::lemma_trim_idempotent(raw@);
            }
            if is_blank_str(t.as_str()) {
                Err(ApiKeyError::EmptyFile(to_owned(path)))
            } else {
                Ok(t)
            }
        },
    }
}

/// Octal digits of `n` (no leading zeros; `0` for zero).
pub open spec fn octal(n: nat) -> Seq<char>
    decreases n,
{
    if n < 8 {
        seq![(n + 48) as char]
    } else {
        octal(n / 8) + seq![((n % 8) + 48) as char]
    }
}

/// `format!("{:o}", n)`.
pub fn octal_string(n: u32) -> (s: String)
    ensures
        s@ == octal(n as nat),
    decreases n,
{
    if n < 8 {
        let mut s = String::new();
        push_char(&mut s, ((n as u8) + 48) as char);
        s
    } else {
        let mut s = octal_string(n / 8);
        push_char(&mut s, (((n % 8) as u8) + 48) as char);
        s
    }
}

/// Group or other permission bits are set.
pub open spec fn lax_mode(mode: u32) -> bool {
    mode & 0o077 != 0
}

/// The warning for the key file `path` with permission bits `mode`.
pub open spec fn lax_warning_text(path: Seq<char>, mode: u32) -> Seq<char> {
    "warning: API key file "@ + path + " has lax permissions ("@ + octal((mode & 0o777) as nat)
        + "); recommend `chmod 600 "@ + path + "`"@
}

/// The warning for a key file whose permission bits `mode` let the group
/// or others in; `None` when only the owner has access.
pub fn lax_permission_warning(path: &str, mode: u32) -> (w: Option<String>)
    ensures
        !lax_mode(mode) ==> w is None,
        lax_mode(mode) ==> (w matches Some(m) && m@ == lax_warning_text(path@, mode)),
{
    if mode & 0o077 == 0 {
        return None;
    }
    let mut m = to_owned("warning: API key file ");
    push_str(&mut m, path);
    push_str(&mut m, " has lax permissions (");
    let o = octal_string(mode & 0o777);
    push_str(&mut m, o.as_str());
    push_str(&mut m, "); recommend `chmod 600 ");
    push_str(&mut m, path);
    push_str(&mut m, "`");
    Some(m)
}

/// What resolving the API key gave: the key and its source, or why there
/// is none; and the warning to print about the key file's permissions.
pub struct Resolved {
    pub key: Result<(String, ApiKeySource), ApiKeyError>,
    pub warning: Option<String>,
}

/// Whether `r` is what resolution gives for the source choice `c` (see
/// [`plan_spec`]), given what reading the key file gave (`read`, when
/// the choice is a file) and its permission bits (`mode`, when they
/// could be read). A key file that cannot be read, or holds only blanks,
/// is an error: it never falls through to a lower source. The warning
/// comes only with a key read from a file whose group or other bits are
/// set.
pub open spec fn resolved_from(
    r: Resolved,
    c: (ApiKeySource, Option<Seq<char>>, bool),
    read: Option<Result<String, IoError>>,
    mode: Option<u32>,
) -> bool {
    match c.1 {
        None => r.key matches Err(ApiKeyError::NotProvided) && r.warning is None,
        Some(v) => if !c.2 {
            r.key matches Ok((k, s)) && k@ == v && s == c.0 && r.warning is None
        } else {
            match read {
                Some(Err(_)) => (r.key matches Err(ApiKeyError::ReadFailed { path: p, .. }) && p@ == v)
                    && r.warning is None,
                Some(Ok(raw)) => if trim(raw@).len() == 0 {
                    (r.key matches Err(ApiKeyError::EmptyFile(p)) && p@ == v) && r.warning is None
                } else {
                    (r.key matches Ok((k, s)) && k@ == trim(raw@) && s == c.0) && match mode {
                        Some(m) => if lax_mode(m) {
                            r.warning matches Some(w) && w@ == lax_warning_text(v, m)
                        } else {
                            r.warning is None
                        },
                        None => r.warning is None,
                    }
                },
                None => false,
            }
        },
    }
}

/// Resolves the API key from the sources in priority order (see
/// [`plan`]). When the chosen source is a key file, `read` is what
/// reading it gave and `mode` its permission bits, when they could be
/// read.
pub fn resolve(sources: &Sources, env: &EnvVars, read: Option<Result<String, IoError>>, mode: Option<u32>) -> (r:
    Resolved)
    requires
        plan_spec(*sources, env).1 is Some && plan_spec(*sources, env).2 ==> read is Some,
    ensures
        resolved_from(r, plan_spec(*sources, env), read, mode),
{
    match plan(sources, env) {
        KeyPlan::NotProvided => Resolved { key: Err(ApiKeyError::NotProvided), warning: None },
        KeyPlan::Raw { key, source } => Resolved { key: Ok((key, source)), warning: None },
        KeyPlan::ReadFile { path, source } => {
            let read = match read {
                Some(x) => x,
                None => {
                    assert(false);
                    return Resolved { key: Err(ApiKeyError::NotProvided), warning: None };
                },
            };
            match key_from_file_contents(path.as_str(), read) {
                Ok(k) => {
                    let warning = match mode {
                        Some(m) => lax_permission_warning(path.as_str(), m),
                        None => None,
                    };
                    Resolved { key: Ok((k, source)), warning }
                },
                Err(e) => Resolved { key: Err(e), warning: None },
            }
        },
    }
}

} // verus!
