//! Data the Protect API exchanges, as the library reads it. The program
//! keeps serde copies of these types and converts at its edge.

use vstd::prelude::*;

use crate::output::DisplayText;
use crate::text::to_owned;

verus! {

/// Camera identifier.
#[derive(Debug, Clone, PartialEq, Eq, Hash)]
pub struct CameraId(pub String);

/// Chime identifier.
#[derive(Debug, Clone, PartialEq, Eq, Hash)]
pub struct ChimeId(pub String);

/// Light identifier.
#[derive(Debug, Clone, PartialEq, Eq, Hash)]
pub struct LightId(pub String);

/// Liveview identifier.
#[derive(Debug, Clone, PartialEq, Eq, Hash)]
pub struct LiveviewId(pub String);

/// NVR identifier.
#[derive(Debug, Clone, PartialEq, Eq, Hash)]
pub struct NvrId(pub String);

/// Sensor identifier.
#[derive(Debug, Clone, PartialEq, Eq, Hash)]
pub struct SensorId(pub String);

/// Viewer identifier.
#[derive(Debug, Clone, PartialEq, Eq, Hash)]
pub struct ViewerId(pub String);

/// A Protect application version, such as `6.2.83`.
#[derive(Debug, Clone, PartialEq, Eq, Hash)]
pub struct ProtectVersion(pub String);

impl CameraId {
    pub fn from(s: String) -> (id: CameraId)
        ensures
            id.0@ == s@,
    {
        CameraId(s)
    }

    /// The identifier as text.
    pub fn as_text(&self) -> (s: String)
        ensures
            s@ == self.0@,
    {
        to_owned(self.0.as_str())
    }
}

impl ChimeId {
    pub fn from(s: String) -> (id: ChimeId)
        ensures
            id.0@ == s@,
    {
        ChimeId(s)
    }

    pub fn as_text(&self) -> (s: String)
        ensures
            s@ == self.0@,
    {
        to_owned(self.0.as_str())
    }
}

impl LightId {
    pub fn from(s: String) -> (id: LightId)
        ensures
            id.0@ == s@,
    {
        LightId(s)
    }

    pub fn as_text(&self) -> (s: String)
        ensures
            s@ == self.0@,
    {
        to_owned(self.0.as_str())
    }
}

impl LiveviewId {
    pub fn from(s: String) -> (id: LiveviewId)
        ensures
            id.0@ == s@,
    {
        LiveviewId(s)
    }

    pub fn as_text(&self) -> (s: String)
        ensures
            s@ == self.0@,
    {
        to_owned(self.0.as_str())
    }
}

impl NvrId {
    pub fn from(s: String) -> (id: NvrId)
        ensures
            id.0@ == s@,
    {
        NvrId(s)
    }

    pub fn as_text(&self) -> (s: String)
        ensures
            s@ == self.0@,
    {
        to_owned(self.0.as_str())
    }
}

impl SensorId {
    pub fn from(s: String) -> (id: SensorId)
        ensures
            id.0@ == s@,
    {
        SensorId(s)
    }

    pub fn as_text(&self) -> (s: String)
        ensures
            s@ == self.0@,
    {
        to_owned(self.0.as_str())
    }
}

impl ViewerId {
    pub fn from(s: String) -> (id: ViewerId)
        ensures
            id.0@ == s@,
    {
        ViewerId(s)
    }

    pub fn as_text(&self) -> (s: String)
        ensures
            s@ == self.0@,
    {
        to_owned(self.0.as_str())
    }
}

impl ProtectVersion {
    pub fn as_text(&self) -> (s: String)
        ensures
            s@ == self.0@,
    {
        to_owned(self.0.as_str())
    }
}

impl DisplayText for CameraId {
    open spec fn text_spec(&self) -> Seq<char> {
        self.0@
    }

    fn text(&self) -> (s: String) {
        self.as_text()
    }
}

impl DisplayText for LiveviewId {
    open spec fn text_spec(&self) -> Seq<char> {
        self.0@
    }

    fn text(&self) -> (s: String) {
        self.as_text()
    }
}

/// Stream quality levels of a camera channel.
#[derive(Debug, Clone, Copy, PartialEq, Eq, Hash, Structural)]
pub enum ChannelQuality {
    High,
    Medium,
    Low,
    Package,
}

pub open spec fn quality_name(q: ChannelQuality) -> Seq<char> {
    match q {
        ChannelQuality::High => "high"@,
        ChannelQuality::Medium => "medium"@,
        ChannelQuality::Low => "low"@,
        ChannelQuality::Package => "package"@,
    }
}

impl ChannelQuality {
    /// The wire name (`high`, `medium`, `low`, `package`).
    pub fn as_str(self) -> (s: &'static str)
        ensures
            s@ == quality_name(self),
    {
        match self {
            ChannelQuality::High => "high",
            ChannelQuality::Medium => "medium",
            ChannelQuality::Low => "low",
            ChannelQuality::Package => "package",
        }
    }
}

/// Camera channel a snapshot is taken from.
#[derive(Debug, Clone, Copy, PartialEq, Eq, Hash, Structural)]
pub enum SnapshotChannel {
    Main,
    Package,
}

pub open spec fn channel_name(c: SnapshotChannel) -> Seq<char> {
    match c {
        SnapshotChannel::Main => "main"@,
        SnapshotChannel::Package => "package"@,
    }
}

impl SnapshotChannel {
    /// The wire name (`main`, `package`).
    pub fn as_str(self) -> (s: &'static str)
        ensures
            s@ == channel_name(self),
    {
        match self {
            SnapshotChannel::Main => "main",
            SnapshotChannel::Package => "package",
        }
    }
}

/// Optional query parameters of a snapshot. The default (no channel, no
/// forced high quality) takes the main channel at the negotiated quality.
#[derive(Debug, Clone, Copy, PartialEq, Eq, Structural)]
pub struct SnapshotOptions {
    /// Camera channel to capture from; `Package` needs a package camera.
    pub channel: Option<SnapshotChannel>,
    /// Force 1080P or higher (`highQuality=true`).
    pub high_quality: bool,
}

impl SnapshotOptions {
    pub fn default() -> (o: SnapshotOptions)
        ensures
            o.channel is None,
            !o.high_quality,
    {
        SnapshotOptions { channel: None, high_quality: false }
    }
}

/// One RTSPS stream URL and the quality it was created for.
#[derive(Debug, Clone, PartialEq, Eq)]
pub struct RtspsStream {
    pub quality: ChannelQuality,
    pub url: String,
}

/// The server's answer to a stream request: one optional URL per quality.
#[derive(Debug, Clone, PartialEq, Eq)]
pub struct CreatedRtspsStreams {
    pub high: Option<String>,
    pub medium: Option<String>,
    pub low: Option<String>,
    pub package: Option<String>,
}

/// The server's answer to a talkback request.
#[derive(Debug, Clone, PartialEq, Eq)]
pub struct CreatedTalkbackSession {
    pub bits_per_sample: u32,
    pub codec: String,
    pub sampling_rate: u32,
    pub url: String,
}

/// A talkback session: where to push audio and how to encode it.
#[derive(Debug, Clone, PartialEq, Eq)]
pub struct TalkbackSession {
    pub bits_per_sample: u32,
    pub codec: String,
    pub sampling_rate: u32,
    pub url: String,
}

/// Application metadata returned by `GET /v1/meta/info`.
#[derive(Debug, Clone, PartialEq, Eq)]
pub struct ApplicationInfo {
    pub application_version: ProtectVersion,
}

/// A camera, as far as the library reads it.
#[derive(Debug, Clone, PartialEq, Eq)]
pub struct Camera {
    pub id: CameraId,
    pub name: Option<String>,
    pub mac: String,
    pub state: String,
}

/// A chime.
#[derive(Debug, Clone, PartialEq, Eq)]
pub struct Chime {
    pub id: ChimeId,
    pub name: Option<String>,
    pub mac: String,
    pub state: String,
    pub camera_ids: Vec<CameraId>,
}

/// A light.
#[derive(Debug, Clone, PartialEq, Eq)]
pub struct Light {
    pub id: LightId,
    pub name: Option<String>,
    pub mac: String,
    pub state: String,
    pub is_light_on: bool,
}

/// One slot of a liveview: the cameras it cycles through.
#[derive(Debug, Clone, PartialEq, Eq)]
pub struct LiveviewSlot {
    pub cameras: Vec<CameraId>,
}

/// A liveview.
#[derive(Debug, Clone, PartialEq, Eq)]
pub struct Liveview {
    pub id: LiveviewId,
    pub name: String,
    pub slots: Vec<LiveviewSlot>,
    pub is_global: bool,
    pub is_default: bool,
}

/// The NVR of an installation.
#[derive(Debug, Clone, PartialEq, Eq)]
pub struct Nvr {
    pub id: NvrId,
    pub name: Option<String>,
}

/// A sensor.
#[derive(Debug, Clone, PartialEq, Eq)]
pub struct Sensor {
    pub id: SensorId,
    pub name: Option<String>,
    pub mac: String,
    pub state: String,
}

/// A viewer.
#[derive(Debug, Clone, PartialEq, Eq)]
pub struct Viewer {
    pub id: ViewerId,
    pub name: Option<String>,
    pub mac: String,
    pub state: String,
    pub liveview: Option<LiveviewId>,
}

} // verus!
