use ferro_protect::models::{
    CameraId, ChannelQuality, ChimeId, LightId, NvrId, ProtectVersion, SensorId, SnapshotChannel,
    SnapshotOptions, ViewerId,
};

#[test]
fn generated_id_newtypes_are_stable() {
    let camera_id = CameraId::from("camera-1".to_string());
    let chime_id = ChimeId::from("chime-1".to_string());

    assert_eq!(camera_id.as_text(), "camera-1");
    assert_eq!(chime_id.as_text(), "chime-1");
}

#[test]
fn other_id_newtypes_keep_their_text() {
    assert_eq!(LightId::from("l".to_string()).as_text(), "l");
    assert_eq!(NvrId::from("n".to_string()).as_text(), "n");
    assert_eq!(SensorId::from("s".to_string()).as_text(), "s");
    assert_eq!(ViewerId::from("v".to_string()).as_text(), "v");
    assert_eq!(ProtectVersion("6.2.83".to_string()).as_text(), "6.2.83");
}

#[test]
fn quality_and_channel_wire_names() {
    assert_eq!(ChannelQuality::High.as_str(), "high");
    assert_eq!(ChannelQuality::Medium.as_str(), "medium");
    assert_eq!(ChannelQuality::Low.as_str(), "low");
    assert_eq!(ChannelQuality::Package.as_str(), "package");
    assert_eq!(SnapshotChannel::Main.as_str(), "main");
    assert_eq!(SnapshotChannel::Package.as_str(), "package");
}

#[test]
fn snapshot_options_default_is_bare() {
    let o = SnapshotOptions::default();
    assert_eq!(o.channel, None);
    assert!(!o.high_quality);
}
