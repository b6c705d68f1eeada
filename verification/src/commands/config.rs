//! `config` subcommand: inspect the effective configuration, print the
//! config file path, or write a commented-out template of the file.

use vstd::prelude::*;

use crate::api_key::io_error_text;
use crate::commands::{lemma_map_prefix, lemma_rows_push, opt_text, rows_view, strings_view};
use crate::output::{is_table_text, strings, table};
use crate::config::{ConfigError, EffectiveConfig};
use crate::logging::level_name;
use crate::text::{
    bool_str, bool_text, chars_of, decimal, join_path, join_path_owned, push_str, to_owned, u64_decimal,
};

use std::io::Error as IoError;

verus! {

/// `config` actions.
#[derive(Debug, Clone, Copy, PartialEq, Eq, Structural)]
pub enum Action {
    /// Print the effective non-secret configuration as field/value rows.
    Show,
    /// Print the resolved config file path.
    Path,
    /// Write a commented-out scaffold of every field, to the resolved
    /// path (`force` to overwrite) or to stdout.
    Template { stdout: bool, force: bool },
}

/// Failures of the `config` subcommand.
#[derive(Debug)]
pub enum ConfigCmdError {
    Config(ConfigError),
    Io { path: String, source: IoError },
    NoConfigFile { path: String },
    /// Any other failure, by its message.
    Other(String),
}

/// The message of `NoConfigFile` for `path`.
pub open spec fn no_config_file_text(path: Seq<char>) -> Seq<char> {
    "no config file at "@ + path
        + "\nRun `ferro-protect config template` to create one, or point\n`--config` / `UNIFI_PROTECT_CONFIG_FILE` at an existing file."@
}

impl ConfigCmdError {
    /// The human-readable message.
    pub fn message(&self) -> (m: String)
        ensures
            self matches ConfigCmdError::NoConfigFile { path } ==> m@ == no_config_file_text(path@),
            self matches ConfigCmdError::Io { path, .. } ==> exists|t: Seq<char>|
                m@ == "io error on "@ + path@ + ": "@ + t,
            self matches ConfigCmdError::Other(t) ==> m@ == t@,
    {
        match self {
            ConfigCmdError::Config(e) => e.message(),
            ConfigCmdError::Io { path, source } => {
                let mut m = to_owned("io error on ");
                push_str(&mut m, path.as_str());
                push_str(&mut m, ": ");
                let t = io_error_text(source);
                push_str(&mut m, t.as_str());
                m
            },
            ConfigCmdError::NoConfigFile { path } => {
                let mut m = to_owned("no config file at ");
                push_str(&mut m, path.as_str());
                push_str(
                    &mut m,
                    "\nRun `ferro-protect config template` to create one, or point\n`--config` / `UNIFI_PROTECT_CONFIG_FILE` at an existing file.",
                );
                m
            },
            ConfigCmdError::Other(t) => to_owned(t.as_str()),
        }
    }
}

/// One recognised config field: its key, description lines and an
/// example value.
#[derive(Debug, Clone)]
pub struct FieldSpec {
    pub key: &'static str,
    pub description: Vec<&'static str>,
    pub example: &'static str,
}

/// The view of a field: key, description lines, example.
pub open spec fn field_view(f: FieldSpec) -> (Seq<char>, Seq<Seq<char>>, Seq<char>) {
    (f.key@, f.description@.map_values(|l: &'static str| l@), f.example@)
}

/// Every field the config file recognises, in order.
pub open spec fn field_table() -> Seq<(Seq<char>, Seq<Seq<char>>, Seq<char>)> {
    seq![
        ("host"@, seq!["NVR hostname (or host:port). Mutually exclusive with base_url."@], "\"nvr.local\""@),
        ("base_url"@, seq!["Full base URL, overriding host. Mutually exclusive with host."@], "\"https://nvr.local/proxy/protect/integration\""@),
        ("api_key_file"@, seq!["Path to a file holding the API key (a leading ~ is expanded)."@], "\"~/.config/ferro-protect/api_key\""@),
        ("insecure"@, seq!["Skip TLS certificate validation."@], "false"@),
        ("json"@, seq!["Emit JSON instead of human-formatted output."@], "false"@),
        ("log_level"@, seq!["One of: error, warn, info, debug, trace."@], "\"warn\""@),
    ]
}

fn field(key: &'static str, line: &'static str, example: &'static str) -> (f: FieldSpec)
    ensures
        field_view(f) == (key@, seq![line@], example@),
{
    let mut description: Vec<&'static str> = Vec::new();
    description.push(line);
    let f = FieldSpec { key, description, example };
    assert(f.description@.map_values(|l: &'static str| l@) =~= seq![line@]);
    f
}

/// Every field the config file recognises, in order.
pub fn fields() -> (v: Vec<FieldSpec>)
    ensures
        v@.map_values(|f: FieldSpec| field_view(f)) == field_table(),
{
    let mut v: Vec<FieldSpec> = Vec::new();
    v.push(field("host", "NVR hostname (or host:port). Mutually exclusive with base_url.", "\"nvr.local\""));
    v.push(field("base_url", "Full base URL, overriding host. Mutually exclusive with host.", "\"https://nvr.local/proxy/protect/integration\""));
    v.push(field("api_key_file", "Path to a file holding the API key (a leading ~ is expanded).", "\"~/.config/ferro-protect/api_key\""));
    v.push(field("insecure", "Skip TLS certificate validation.", "false"));
    v.push(field("json", "Emit JSON instead of human-formatted output.", "false"));
    v.push(field("log_level", "One of: error, warn, info, debug, trace.", "\"warn\""));
    assert(v@.map_values(|f: FieldSpec| field_view(f)) =~= field_table());
    v
}

/// One row of `config show`.
#[derive(Debug, Clone)]
pub struct ShowRow {
    pub field: &'static str,
    pub value: String,
}

/// The value shown for an unset optional setting.
pub open spec fn or_unset(o: Option<String>) -> Seq<char> {
    match o {
        Some(s) => s@,
        None => "<unset>"@,
    }
}

/// The rows `config show` prints, one per field of [`field_table`], in
/// the same order.
pub open spec fn rows_spec(c: EffectiveConfig) -> Seq<(Seq<char>, Seq<char>)> {
    seq![
        ("host"@, or_unset(c.host)),
        ("base_url"@, or_unset(c.base_url)),
        ("api_key_file"@, or_unset(c.api_key_file)),
        ("insecure"@, bool_text(c.insecure)),
        ("json"@, bool_text(c.json)),
        ("log_level"@, level_name(c.log_level)),
    ]
}

pub open spec fn show_rows_view(v: Seq<ShowRow>) -> Seq<(Seq<char>, Seq<char>)> {
    v.map_values(|r: ShowRow| (r.field@, r.value@))
}

fn or_unset_owned(o: &Option<String>) -> (s: String)
    ensures
        s@ == or_unset(*o),
{
    match o {
        Some(v) => to_owned(v.as_str()),
        None => to_owned("<unset>"),
    }
}

/// The field/value rows of the effective configuration.
pub fn collect_rows(resolved: &EffectiveConfig) -> (rows: Vec<ShowRow>)
    ensures
        show_rows_view(rows@) == rows_spec(*resolved),
{
    let mut rows: Vec<ShowRow> = Vec::new();
    rows.push(ShowRow { field: "host", value: or_unset_owned(&resolved.host) });
    rows.push(ShowRow { field: "base_url", value: or_unset_owned(&resolved.base_url) });
    rows.push(ShowRow { field: "api_key_file", value: or_unset_owned(&resolved.api_key_file) });
    rows.push(ShowRow { field: "insecure", value: to_owned(bool_str(resolved.insecure)) });
    rows.push(ShowRow { field: "json", value: to_owned(bool_str(resolved.json)) });
    rows.push(ShowRow { field: "log_level", value: to_owned(resolved.log_level.as_str()) });
    assert(show_rows_view(rows@) =~= rows_spec(*resolved));
    rows
}

/// A row of the `config show` table: the field, then its value.
pub open spec fn show_row_cells(r: ShowRow) -> Seq<Seq<char>> {
    seq![r.field@, r.value@]
}

/// `config show` for people: a table with columns FIELD, VALUE, one row
/// per field in order.
pub fn render_rows(rows: &Vec<ShowRow>) -> (s: String)
    ensures
        is_table_text(
            s@,
            seq!["FIELD"@, "VALUE"@],
            rows@.map_values(|r: ShowRow| show_row_cells(r)),
        ),
{
    let mut cells: Vec<Vec<String>> = Vec::new();
    let mut i: usize = 0;
    while i < rows.len()
        invariant
            i <= rows@.len(),
            rows_view(cells@) == rows@.subrange(0, i as int).map_values(|r: ShowRow| show_row_cells(r)),
        decreases rows.len() - i,
    {
        let r = &rows[i];
        let mut row: Vec<String> = Vec::new();
        row.push(to_owned(r.field));
        row.push(to_owned(r.value.as_str()));
        assert(strings_view(row@) =~= show_row_cells(*r));
        proof {
            lemma_rows_push(cells@, row);
            lemma_map_prefix(rows@, i as int, |r: ShowRow| show_row_cells(r));
        }
        cells.push(row);
        i = i + 1;
    }
    assert(rows@.subrange(0, rows@.len() as int) == rows@);
    let headers = strings(&["FIELD", "VALUE"]);
    assert(strings_view(headers@) =~= seq!["FIELD"@, "VALUE"@]);
    table(&headers, &cells)
}

/// `config show` and `config template` list the same fields, in the same
/// order, whatever the configuration.
pub proof fn lemma_rows_match_fields(c: EffectiveConfig)
    ensures
        rows_spec(c).len() == field_table().len(),
        forall|i: int| 0 <= i < field_table().len() ==> #[trigger] rows_spec(c)[i].0 == field_table()[i].0,
{
}

/// Opening comment of the template.
pub open spec fn template_header() -> Seq<char> {
    "# ferro-protect config file\n# Generated by `ferro-protect config template`.\n# Precedence: flag > env > this file > built-in default.\n# Every recognised field is listed below; uncomment the lines\n# you need. `ferro-protect config show` displays the effective\n# resolved values.\n"@
}

/// Description lines, each commented.
pub open spec fn comment_lines(lines: Seq<Seq<char>>) -> Seq<char>
    decreases lines.len(),
{
    if lines.len() == 0 {
        Seq::empty()
    } else {
        comment_lines(lines.drop_last()) + "# "@ + lines.last() + "\n"@
    }
}

/// A field's block: a blank line, its commented description, then the
/// commented-out `key = example` line.
pub open spec fn field_block(f: (Seq<char>, Seq<Seq<char>>, Seq<char>)) -> Seq<char> {
    "\n"@ + comment_lines(f.1) + "# "@ + f.0 + " = "@ + f.2 + "\n"@
}

/// The blocks of `fs`, in order.
pub open spec fn field_blocks(fs: Seq<(Seq<char>, Seq<Seq<char>>, Seq<char>)>) -> Seq<char>
    decreases fs.len(),
{
    if fs.len() == 0 {
        Seq::empty()
    } else {
        field_blocks(fs.drop_last()) + field_block(fs.last())
    }
}

/// The whole template.
pub open spec fn template_text() -> Seq<char> {
    template_header() + field_blocks(field_table())
}

/// The commented-out scaffold listing every recognised field, built from
/// [`fields`] so that the two cannot drift apart.
pub fn build_template() -> (s: String)
    ensures
        s@ == template_text(),
{
    let mut out = to_owned(
        "# ferro-protect config file\n# Generated by `ferro-protect config template`.\n# Precedence: flag > env > this file > built-in default.\n# Every recognised field is listed below; uncomment the lines\n# you need. `ferro-protect config show` displays the effective\n# resolved values.\n",
    );
    let fs = fields();
    let ghost table = fs@.map_values(|f: FieldSpec| field_view(f));
    let mut i: usize = 0;
    while i < fs.len()
        invariant
            i <= fs@.len(),
            table == fs@.map_values(|f: FieldSpec| field_view(f)),
            out@ == template_header() + field_blocks(table.subrange(0, i as int)),
        decreases fs.len() - i,
    {
        let f = &fs[i];
        let ghost before = out@;
        push_str(&mut out, "\n");
        let mut j: usize = 0;
        while j < f.description.len()
            invariant
                j <= f.description@.len(),
                out@ == before + "\n"@ + comment_lines(
                    f.description@.subrange(0, j as int).map_values(|l: &'static str| l@),
                ),
            decreases f.description.len() - j,
        {
            push_str(&mut out, "# ");
            push_str(&mut out, f.description[j]);
            push_str(&mut out, "\n");
            proof {
                let ls = f.description@.subrange(0, j + 1).map_values(|l: &'static str| l@);
                assert(ls.drop_last() =~= f.description@.subrange(0, j as int).map_values(
                    |l: &'static str| l@,
                ));
                assert(ls.last() == f.description@[j as int]@);
            }
            j = j + 1;
        }
        push_str(&mut out, "# ");
        push_str(&mut out, f.key);
        push_str(&mut out, " = ");
        push_str(&mut out, f.example);
        push_str(&mut out, "\n");
        proof {
            assert(f.description@.subrange(0, f.description@.len() as int) == f.description@);
            let t = table.subrange(0, i + 1);
            assert(t.drop_last() =~= table.subrange(0, i as int));
            assert(t.last() == field_view(*f));
            assert(out@ =~= template_header() + field_blocks(table.subrange(0, i as int))
                + field_block(field_view(*f)));
        }
        i = i + 1;
    }
    assert(table.subrange(0, fs@.len() as int) == table);
    out
}

/// Why `config template` refuses to overwrite `path`.
pub open spec fn template_exists_text(path: Seq<char>) -> Seq<char> {
    path + " already exists. Pass `--force` to overwrite, or `--stdout` to print without writing."@
}

/// Why `config template` refuses to overwrite `path`.
pub fn template_exists_message(path: &str) -> (m: String)
    ensures
        m@ == template_exists_text(path@),
{
    let mut m = to_owned(path);
    push_str(
        &mut m,
        " already exists. Pass `--force` to overwrite, or `--stdout` to print without writing.",
    );
    m
}

/// Whether `config template` may write to `path`: refused, with
/// [`template_exists_message`] as the error's text, when a file is
/// already there and `force` was not given.
pub fn check_template_target(path: &str, present: bool, force: bool) -> (r: Result<(), ConfigCmdError>)
    ensures
        (r is Ok) == (!present || force),
        r is Err ==> (r matches Err(ConfigCmdError::Other(m)) && m@ == template_exists_text(path@)),
{
    if present && !force {
        let m = template_exists_message(path);
        return Err(ConfigCmdError::Other(m));
    }
    Ok(())
}

/// `config path`: the resolved path, which must name a regular file
/// (`is_file`); a directory there is as unusable as no file at all.
pub fn check_config_path(path: String, is_file: bool) -> (r: Result<String, ConfigCmdError>)
    ensures
        is_file ==> (r matches Ok(p) && p@ == path@),
        !is_file ==> (r matches Err(ConfigCmdError::NoConfigFile { path: p }) && p@ == path@),
{
    if is_file {
        Ok(path)
    } else {
        Err(ConfigCmdError::NoConfigFile { path })
    }
}

/// `config show` inspects the config file, so where loading found none
/// (the default path, absent) it is an error naming `path`, not a
/// fallback to built-in defaults.
pub fn require_loaded<T>(loaded: Option<T>, path: String) -> (r: Result<T, ConfigCmdError>)
    ensures
        loaded matches Some(l) ==> (r matches Ok(x) && x == l),
        loaded is None ==> (r matches Err(ConfigCmdError::NoConfigFile { path: p }) && p@ == path@),
{
    match loaded {
        Some(l) => Ok(l),
        None => Err(ConfigCmdError::NoConfigFile { path }),
    }
}

/// What `Path::parent` gives for the path written `p` (the text of the
/// parent, or nothing for a root, a prefix or the empty path).
pub uninterp spec fn path_parent_of(p: Seq<char>) -> Option<Seq<char>>;

/// What `Path::file_name` gives for the path written `p` (its last
/// component, or nothing when it ends in `..`).
pub uninterp spec fn path_file_name_of(p: Seq<char>) -> Option<Seq<char>>;

/// `Path::parent` of a path given as text. The parent of a path written
/// as text is a prefix of it, so the text conversion loses nothing.
#[verifier::external_body]
fn path_parent(p: &str) -> (r: Option<String>)
    ensures
        match r {
            Some(s) => path_parent_of(p@) == Some(s@),
            None => path_parent_of(p@) is None,
        },
{
    std::path::Path::new(p).parent().map(|q| q.to_string_lossy().into_owned())
}

/// `Path::file_name` of a path given as text.
#[verifier::external_body]
fn path_file_name(p: &str) -> (r: Option<String>)
    ensures
        match r {
            Some(s) => path_file_name_of(p@) == Some(s@),
            None => path_file_name_of(p@) is None,
        },
{
    std::path::Path::new(p).file_name().map(|q| q.to_string_lossy().into_owned())
}

/// The directory of `p`: its parent, unless there is none or it is
/// empty.
pub open spec fn nonempty_parent(p: Seq<char>) -> Option<Seq<char>> {
    match path_parent_of(p) {
        Some(d) => if d.len() > 0 {
            Some(d)
        } else {
            None
        },
        None => None,
    }
}

/// The directory `config template` creates before writing `path`: its
/// parent, unless there is none or it is empty.
pub fn parent_dir_to_create(path: &str) -> (r: Option<String>)
    ensures
        match nonempty_parent(path@) {
            Some(d) => r matches Some(x) && x@ == d,
            None => r is None,
        },
{
    match path_parent(path) {
        Some(d) => {
            if chars_of(d.as_str()).len() > 0 {
                Some(d)
            } else {
                None
            }
        },
        None => None,
    }
}

/// The name of the temporary file written next to the target: a dot, the
/// target's file name, `.tmp.` and the process id.
pub open spec fn tmp_name(file_name: Option<Seq<char>>, pid: nat) -> Seq<char> {
    "."@ + (match file_name {
        Some(f) => f,
        None => Seq::empty(),
    }) + ".tmp."@ + decimal(pid)
}

/// The temporary path for writing `p` atomically: [`tmp_name`] in the
/// directory of `p` (the same file system, so the rename stays atomic),
/// or bare when `p` has no non-empty parent.
pub open spec fn tmp_sibling_text(p: Seq<char>, pid: nat) -> Seq<char> {
    let name = tmp_name(path_file_name_of(p), pid);
    match nonempty_parent(p) {
        Some(d) => join_path(d, name),
        None => name,
    }
}

/// The per-process temporary path next to `path`.
pub fn tmp_sibling(path: &str, pid: u32) -> (r: String)
    ensures
        r@ == tmp_sibling_text(path@, pid as nat),
{
    let mut name = to_owned(".");
    if let Some(f) = path_file_name(path) {
        push_str(&mut name, f.as_str());
    }
    push_str(&mut name, ".tmp.");
    let digits = u64_decimal(pid as u64);
    push_str(&mut name, digits.as_str());
    proof {
        match path_file_name_of(path@) {
            Some(f) => assert(name@ =~= tmp_name(Some(f), pid as nat)),
            None => assert(name@ =~= tmp_name(None, pid as nat)),
        }
    }
    match parent_dir_to_create(path) {
        Some(d) => join_path_owned(d.as_str(), name.as_str()),
        None => name,
    }
}

/// What `config template` writes when it writes a file: the template,
/// the directory to create first, the temporary file it is written to,
/// and the target it is then renamed onto.
pub struct TemplateWrite {
    pub body: String,
    pub dir: Option<String>,
    pub tmp: String,
    pub target: String,
}

/// `config template` without `--stdout`: refused when a file is already
/// at `target` and `force` is not given (so nothing is written);
/// otherwise the template, written to the per-process temporary file
/// next to `target` (after creating its directory) and renamed onto it.
pub fn plan_template_write(target: String, present: bool, force: bool, pid: u32) -> (r: Result<
    TemplateWrite,
    ConfigCmdError,
>)
    ensures
        present && !force ==> (r matches Err(ConfigCmdError::Other(m)) && m@ == template_exists_text(
            target@,
        )),
        !(present && !force) ==> (r matches Ok(w) && w.body@ == template_text() && w.target@
            == target@ && w.tmp@ == tmp_sibling_text(target@, pid as nat) && match nonempty_parent(
            target@,
        ) {
            Some(d) => w.dir matches Some(x) && x@ == d,
            None => w.dir is None,
        }),
{
    match check_template_target(target.as_str(), present, force) {
        Err(e) => Err(e),
        Ok(()) => {
            let body = build_template();
            let dir = parent_dir_to_create(target.as_str());
            let tmp = tmp_sibling(target.as_str(), pid);
            Ok(TemplateWrite { body, dir, tmp, target })
        },
    }
}

} // verus!
