//! `cameras` subcommands.

use vstd::prelude::*;

use crate::commands::{lemma_map_prefix, lemma_rows_push, opt_text, rows_view, strings_view};
use crate::models::{quality_name, Camera, ChannelQuality, RtspsStream, SnapshotChannel, SnapshotOptions, TalkbackSession};
use crate::output::{display_optional, is_table_text, strings, table};
use crate::text::{decimal, push_str, to_owned, u64_decimal};

verus! {

/// `cameras` actions.
#[derive(Debug, Clone)]
pub enum Action {
    /// List every camera the NVR knows about.
    List,
    /// Look up one camera by ID.
    Get { id: String },
    /// Allocate a talkback session for a camera.
    Talkback { id: String },
    /// Create RTSPS stream URLs, one per requested quality, in order.
    Rtsps { id: String, quality: Vec<QualityArg> },
    /// Fetch a JPEG snapshot, written to `out` or to a non-terminal stdout.
    Snapshot { id: String, channel: Option<ChannelArg>, high_quality: bool, out: Option<String> },
}

/// Channel as named on the command line.
#[derive(Debug, Clone, Copy, PartialEq, Eq, Structural)]
pub enum ChannelArg {
    Main,
    Package,
}

impl ChannelArg {
    pub fn to_channel(self) -> (c: SnapshotChannel)
        ensures
            self is Main ==> c is Main,
            self is Package ==> c is Package,
    {
        match self {
            ChannelArg::Main => SnapshotChannel::Main,
            ChannelArg::Package => SnapshotChannel::Package,
        }
    }
}

/// Quality as named on the command line.
#[derive(Debug, Clone, Copy, PartialEq, Eq, Structural)]
pub enum QualityArg {
    High,
    Medium,
    Low,
    Package,
}

/// The quality a command-line name stands for.
pub open spec fn quality_of(q: QualityArg) -> ChannelQuality {
    match q {
        QualityArg::High => ChannelQuality::High,
        QualityArg::Medium => ChannelQuality::Medium,
        QualityArg::Low => ChannelQuality::Low,
        QualityArg::Package => ChannelQuality::Package,
    }
}

impl QualityArg {
    pub fn to_quality(self) -> (q: ChannelQuality)
        ensures
            q == quality_of(self),
    {
        match self {
            QualityArg::High => ChannelQuality::High,
            QualityArg::Medium => ChannelQuality::Medium,
            QualityArg::Low => ChannelQuality::Low,
            QualityArg::Package => ChannelQuality::Package,
        }
    }
}

/// The qualities requested on the command line, in order.
pub fn qualities(args: &[QualityArg]) -> (v: Vec<ChannelQuality>)
    ensures
        v@ == args@.map_values(|q: QualityArg| quality_of(q)),
{
    let mut v: Vec<ChannelQuality> = Vec::new();
    let mut i: usize = 0;
    while i < args.len()
        invariant
            i <= args@.len(),
            v@ == args@.subrange(0, i as int).map_values(|q: QualityArg| quality_of(q)),
        decreases args.len() - i,
    {
        v.push(args[i].to_quality());
        i = i + 1;
        assert(args@.subrange(0, i as int).map_values(|q: QualityArg| quality_of(q)) =~= v@);
    }
    assert(args@.subrange(0, args@.len() as int) == args@);
    v
}

/// The snapshot options of the command line.
pub fn snapshot_options(channel: Option<ChannelArg>, high_quality: bool) -> (o: SnapshotOptions)
    ensures
        o.high_quality == high_quality,
        channel is None <==> o.channel is None,
        channel matches Some(ChannelArg::Main) ==> o.channel matches Some(SnapshotChannel::Main),
        channel matches Some(ChannelArg::Package) ==> o.channel matches Some(SnapshotChannel::Package),
{
    let channel = match channel {
        Some(c) => Some(c.to_channel()),
        None => None,
    };
    SnapshotOptions { channel, high_quality }
}

/// A camera's table row: ID, name, MAC, state.
pub open spec fn camera_row(c: Camera) -> Seq<Seq<char>> {
    seq![c.id.0@, opt_text(c.name), c.mac@, c.state@]
}

/// The table rows of `cameras`.
pub fn camera_rows(cameras: &[Camera]) -> (rows: Vec<Vec<String>>)
    ensures
        rows_view(rows@) == cameras@.map_values(|c: Camera| camera_row(c)),
{
    let mut rows: Vec<Vec<String>> = Vec::new();
    let mut i: usize = 0;
    while i < cameras.len()
        invariant
            i <= cameras@.len(),
            rows_view(rows@) == cameras@.subrange(0, i as int).map_values(|c: Camera| camera_row(c)),
        decreases cameras.len() - i,
    {
        let c = &cameras[i];
        let mut row: Vec<String> = Vec::new();
        row.push(c.id.as_text());
        row.push(display_optional(c.name.as_ref()));
        row.push(to_owned(c.mac.as_str()));
        row.push(to_owned(c.state.as_str()));
        assert(strings_view(row@) =~= camera_row(*c));
        proof {
            lemma_rows_push(rows@, row);
            lemma_map_prefix(cameras@, i as int, |c: Camera| camera_row(c));
        }
        rows.push(row);
        i = i + 1;
    }
    assert(cameras@.subrange(0, cameras@.len() as int) == cameras@);
    rows
}

/// The camera list: `(no cameras)` when empty, else a table with columns
/// ID, NAME, MAC, STATE.
pub fn render_table(cameras: &[Camera]) -> (s: String)
    ensures
        cameras@.len() == 0 ==> s@ == "(no cameras)\n"@,
        cameras@.len() > 0 ==> is_table_text(
            s@,
            seq!["ID"@, "NAME"@, "MAC"@, "STATE"@],
            cameras@.map_values(|x: Camera| camera_row(x)),
        ),
{
    if cameras.len() == 0 {
        return to_owned("(no cameras)\n");
    }
    let headers = strings(&["ID", "NAME", "MAC", "STATE"]);
    let rows = camera_rows(cameras);
    assert(strings_view(headers@) =~= seq!["ID"@, "NAME"@, "MAC"@, "STATE"@]);
    table(&headers, &rows)
}

/// One camera, one field per line.
pub open spec fn camera_text(c: Camera) -> Seq<char> {
    "ID:    "@ + c.id.0@ + "\nName:  "@ + opt_text(c.name) + "\nMAC:   "@ + c.mac@ + "\nState: "@
        + c.state@ + "\n"@
}

/// One camera, one field per line.
pub fn render_one(camera: &Camera) -> (s: String)
    ensures
        s@ == camera_text(*camera),
{
    let mut s = to_owned("ID:    ");
    push_str(&mut s, camera.id.0.as_str());
    push_str(&mut s, "\nName:  ");
    let name = display_optional(camera.name.as_ref());
    push_str(&mut s, name.as_str());
    push_str(&mut s, "\nMAC:   ");
    push_str(&mut s, camera.mac.as_str());
    push_str(&mut s, "\nState: ");
    push_str(&mut s, camera.state.as_str());
    push_str(&mut s, "\n");
    s
}

/// A talkback session: URL, codec, sample rate and bits per sample.
pub open spec fn talkback_text(t: TalkbackSession) -> Seq<char> {
    "URL:           "@ + t.url@ + "\nCodec:         "@ + t.codec@ + "\nSample rate:   "@ + decimal(
        t.sampling_rate as nat,
    ) + " Hz\nBits/sample:   "@ + decimal(t.bits_per_sample as nat) + "\n"@
}

/// A talkback session: URL, codec, sample rate and bits per sample.
pub fn render_talkback_session(t: &TalkbackSession) -> (s: String)
    ensures
        s@ == talkback_text(*t),
{
    let mut s = to_owned("URL:           ");
    push_str(&mut s, t.url.as_str());
    push_str(&mut s, "\nCodec:         ");
    push_str(&mut s, t.codec.as_str());
    push_str(&mut s, "\nSample rate:   ");
    let rate = u64_decimal(t.sampling_rate as u64);
    push_str(&mut s, rate.as_str());
    push_str(&mut s, " Hz\nBits/sample:   ");
    let bits = u64_decimal(t.bits_per_sample as u64);
    push_str(&mut s, bits.as_str());
    push_str(&mut s, "\n");
    s
}

/// A stream's table row: quality, URL.
pub open spec fn stream_row(st: RtspsStream) -> Seq<Seq<char>> {
    seq![quality_name(st.quality), st.url@]
}

/// The table rows of `streams`.
pub fn stream_rows(streams: &[RtspsStream]) -> (rows: Vec<Vec<String>>)
    ensures
        rows_view(rows@) == streams@.map_values(|st: RtspsStream| stream_row(st)),
{
    let mut rows: Vec<Vec<String>> = Vec::new();
    let mut i: usize = 0;
    while i < streams.len()
        invariant
            i <= streams@.len(),
            rows_view(rows@) == streams@.subrange(0, i as int).map_values(
                |st: RtspsStream| stream_row(st),
            ),
        decreases streams.len() - i,
    {
        let st = &streams[i];
        let mut row: Vec<String> = Vec::new();
        row.push(to_owned(st.quality.as_str()));
        row.push(to_owned(st.url.as_str()));
        assert(strings_view(row@) =~= stream_row(*st));
        proof {
            lemma_rows_push(rows@, row);
            lemma_map_prefix(streams@, i as int, |st: RtspsStream| stream_row(st));
        }
        rows.push(row);
        i = i + 1;
    }
    assert(streams@.subrange(0, streams@.len() as int) == streams@);
    rows
}

/// The created streams: `(no streams returned)` when empty, else a table
/// with columns QUALITY, URL.
pub fn render_rtsps_streams(streams: &[RtspsStream]) -> (s: String)
    ensures
        streams@.len() == 0 ==> s@ == "(no streams returned)\n"@,
        streams@.len() > 0 ==> is_table_text(
            s@,
            seq!["QUALITY"@, "URL"@],
            streams@.map_values(|x: RtspsStream| stream_row(x)),
        ),
{
    if streams.len() == 0 {
        return to_owned("(no streams returned)\n");
    }
    let headers = strings(&["QUALITY", "URL"]);
    let rows = stream_rows(streams);
    assert(strings_view(headers@) =~= seq!["QUALITY"@, "URL"@]);
    table(&headers, &rows)
}


/// Why `cameras snapshot` refuses `--json`: a JPEG has no JSON form.
pub fn check_snapshot_output_mode(json: bool) -> (r: Result<(), String>)
    ensures
        r is Err <==> json,
        r matches Err(m) ==> m@
            == "`cameras snapshot` produces binary JPEG output, which has no JSON representation. Drop --json, or pipe the raw bytes (or use --out PATH)."@,
{
    if json {
        return Err(
            to_owned(
                "`cameras snapshot` produces binary JPEG output, which has no JSON representation. Drop --json, or pipe the raw bytes (or use --out PATH).",
            ),
        );
    }
    Ok(())
}

/// Where snapshot bytes are written.
#[derive(Debug, PartialEq, Eq)]
pub enum SnapshotSink {
    /// The file at this path (created or truncated).
    File(String),
    /// Standard output.
    Stdout,
}

/// Where snapshot bytes go: the `--out` file when given; else stdout,
/// unless stdout is an interactive terminal.
pub fn snapshot_sink(out: Option<String>, stdout_is_terminal: bool) -> (r: Result<SnapshotSink, String>)
    ensures
        match out {
            Some(p) => r matches Ok(SnapshotSink::File(q)) && q@ == p@,
            None => if stdout_is_terminal {
                r matches Err(m) && m@
                    == "refusing to write JPEG bytes to an interactive terminal. Pass --out PATH, or redirect stdout (e.g. `... > snap.jpg`)."@
            } else {
                r matches Ok(SnapshotSink::Stdout)
            },
        },
{
    match out {
        Some(p) => Ok(SnapshotSink::File(p)),
        None => {
            if stdout_is_terminal {
                Err(
                    to_owned(
                        "refusing to write JPEG bytes to an interactive terminal. Pass --out PATH, or redirect stdout (e.g. `... > snap.jpg`).",
                    ),
                )
            } else {
                Ok(SnapshotSink::Stdout)
            }
        },
    }
}

} // verus!
