use ferro_protect::cameras::{
    camera_action_path, camera_path, entity_path, snapshot_path, streams_in_request_order,
    talkback_from_created,
};
use ferro_protect::models::{
    CameraId, ChannelQuality, CreatedRtspsStreams, CreatedTalkbackSession, SnapshotChannel,
    SnapshotOptions,
};

fn cam(id: &str) -> CameraId {
    CameraId::from(id.to_string())
}

#[test]
fn paths() {
    assert_eq!(entity_path("sensors", "abc"), "/v1/sensors/abc");
    assert_eq!(camera_path(&cam("abc123")), "/v1/cameras/abc123");
    assert_eq!(camera_action_path(&cam("abc"), "rtsps-stream"), "/v1/cameras/abc/rtsps-stream");
}

#[test]
fn snapshot_default_options_sends_bare_path() {
    assert_eq!(snapshot_path(&cam("abc"), &SnapshotOptions::default()), "/v1/cameras/abc/snapshot");
}

#[test]
fn snapshot_with_forwards_channel_and_high_quality_query_params() {
    let opts = SnapshotOptions { channel: Some(SnapshotChannel::Package), high_quality: true };
    assert_eq!(
        snapshot_path(&cam("abc"), &opts),
        "/v1/cameras/abc/snapshot?channel=package&highQuality=true"
    );
    let opts = SnapshotOptions { channel: None, high_quality: true };
    assert_eq!(snapshot_path(&cam("abc"), &opts), "/v1/cameras/abc/snapshot?highQuality=true");
    let opts = SnapshotOptions { channel: Some(SnapshotChannel::Main), high_quality: false };
    assert_eq!(snapshot_path(&cam("abc"), &opts), "/v1/cameras/abc/snapshot?channel=main");
}

fn created(high: Option<&str>, low: Option<&str>) -> CreatedRtspsStreams {
    CreatedRtspsStreams {
        high: high.map(|s| s.to_string()),
        medium: None,
        low: low.map(|s| s.to_string()),
        package: None,
    }
}

#[test]
fn rtsps_stream_orders_response_as_requested() {
    let c = created(Some("rtsps://nvr/cam-abc-high"), Some("rtsps://nvr/cam-abc-low"));
    let s = streams_in_request_order(&[ChannelQuality::Low, ChannelQuality::High], &c);
    assert_eq!(s.len(), 2);
    assert_eq!(s[0].quality, ChannelQuality::Low);
    assert_eq!(s[0].url, "rtsps://nvr/cam-abc-low");
    assert_eq!(s[1].quality, ChannelQuality::High);
    assert_eq!(s[1].url, "rtsps://nvr/cam-abc-high");
}

#[test]
fn rtsps_stream_drops_qualities_not_returned_by_server() {
    let c = created(Some("rtsps://nvr/cam-abc-high"), None);
    let s = streams_in_request_order(&[ChannelQuality::Low, ChannelQuality::High], &c);
    assert_eq!(s.len(), 1);
    assert_eq!(s[0].quality, ChannelQuality::High);
    assert!(streams_in_request_order(&[], &c).is_empty());
}

#[test]
fn talkback_maps_fields() {
    let t = talkback_from_created(CreatedTalkbackSession {
        bits_per_sample: 16,
        codec: "opus".to_string(),
        sampling_rate: 24000,
        url: "rtp://192.168.1.123:7004".to_string(),
    });
    assert_eq!(t.bits_per_sample, 16);
    assert_eq!(t.codec, "opus");
    assert_eq!(t.sampling_rate, 24000);
    assert_eq!(t.url, "rtp://192.168.1.123:7004");
}
