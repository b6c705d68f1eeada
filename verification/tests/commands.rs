use ferro_protect::client::Layer;
use ferro_protect::commands::client_builder;
use ferro_protect::commands::config::{parent_dir_to_create, tmp_sibling};
use ferro_protect::commands::config::{template_exists_message, ConfigCmdError};
use ferro_protect::commands::cameras::{check_snapshot_output_mode, snapshot_sink, SnapshotSink};
use ferro_protect::commands::cameras::{
    camera_rows, qualities, render_one, render_rtsps_streams, render_table,
    render_talkback_session, snapshot_options, ChannelArg, QualityArg,
};
use ferro_protect::commands::config::{
    build_template, check_config_path, check_template_target, collect_rows, fields, plan_template_write,
    render_rows,
    require_loaded,
};
use ferro_protect::commands::{nvrs, viewers};
use ferro_protect::config::EffectiveConfig;
use ferro_protect::logging::LogLevel;
use ferro_protect::models::{
    Camera, CameraId, ChannelQuality, LiveviewId, Nvr, NvrId, RtspsStream, SnapshotChannel,
    TalkbackSession, Viewer, ViewerId,
};

#[test]
fn collect_rows_matches_fields_table() {
    let resolved = EffectiveConfig {
        host: None,
        base_url: None,
        api_key_file: None,
        insecure: false,
        json: false,
        log_level: LogLevel::Warn,
    };
    let rows = collect_rows(&resolved);
    let row_keys: Vec<_> = rows.iter().map(|r| r.field).collect();
    let field_keys: Vec<_> = fields().iter().map(|f| f.key).collect();
    assert_eq!(row_keys, field_keys, "collect_rows ↔ FIELDS drift");
}

#[test]
fn collect_rows_values() {
    let resolved = EffectiveConfig {
        host: Some("nvr.local".to_string()),
        base_url: None,
        api_key_file: Some("/tmp/some-key".to_string()),
        insecure: true,
        json: false,
        log_level: LogLevel::Debug,
    };
    let values: Vec<String> = collect_rows(&resolved).into_iter().map(|r| r.value).collect();
    assert_eq!(values, vec!["nvr.local", "<unset>", "/tmp/some-key", "true", "false", "debug"]);
}

#[test]
fn template_lists_every_field_commented_out() {
    let t = build_template();
    assert!(t.starts_with("# ferro-protect config file\n"));
    for f in fields() {
        assert!(t.contains(&format!("# {} = {}\n", f.key, f.example)), "{}", f.key);
    }
    assert!(t.contains("# host = \"nvr.local\"\n"));
    assert!(t.ends_with("# log_level = \"warn\"\n"));
}

#[test]
fn template_target_refused_without_force() {
    assert!(check_template_target("/x", false, false).is_ok());
    assert!(check_template_target("/x", true, true).is_ok());
    assert!(check_template_target("/x", true, false).is_err());
}

fn camera(id: &str, name: Option<&str>) -> Camera {
    Camera {
        id: CameraId::from(id.to_string()),
        name: name.map(|s| s.to_string()),
        mac: "AA".to_string(),
        state: "CONNECTED".to_string(),
    }
}

#[test]
fn cameras_list_empty_human() {
    assert_eq!(render_table(&[]), "(no cameras)\n");
}

#[test]
fn cameras_table_and_rows() {
    let cams = [camera("cam-1", Some("Front Door")), camera("cam-2", None)];
    let rows = camera_rows(&cams);
    assert_eq!(rows[0], vec!["cam-1", "Front Door", "AA", "CONNECTED"]);
    assert_eq!(rows[1], vec!["cam-2", "", "AA", "CONNECTED"]);
    let t = render_table(&cams);
    assert!(t.contains("Front Door") && t.contains("STATE") && t.ends_with('\n'));
}

#[test]
fn camera_render_one() {
    assert_eq!(
        render_one(&camera("abc", Some("Porch"))),
        "ID:    abc\nName:  Porch\nMAC:   AA\nState: CONNECTED\n"
    );
}

#[test]
fn talkback_and_streams_render() {
    let t = TalkbackSession {
        bits_per_sample: 16,
        codec: "opus".to_string(),
        sampling_rate: 24000,
        url: "rtp://192.168.1.123:7004".to_string(),
    };
    assert_eq!(
        render_talkback_session(&t),
        "URL:           rtp://192.168.1.123:7004\nCodec:         opus\nSample rate:   24000 Hz\nBits/sample:   16\n"
    );
    assert_eq!(render_rtsps_streams(&[]), "(no streams returned)\n");
    let s = render_rtsps_streams(&[RtspsStream {
        quality: ChannelQuality::High,
        url: "rtsps://nvr/cam-abc-high".to_string(),
    }]);
    assert!(s.contains("QUALITY") && s.contains("high") && s.contains("rtsps://nvr/cam-abc-high"));
}

#[test]
fn cli_args_map_to_library_values() {
    assert_eq!(
        qualities(&[QualityArg::Low, QualityArg::High, QualityArg::Package]),
        vec![ChannelQuality::Low, ChannelQuality::High, ChannelQuality::Package]
    );
    let o = snapshot_options(Some(ChannelArg::Package), true);
    assert_eq!(o.channel, Some(SnapshotChannel::Package));
    assert!(o.high_quality);
    let o = snapshot_options(None, false);
    assert_eq!(o.channel, None);
    assert!(!o.high_quality);
}

#[test]
fn nvr_and_viewer_render() {
    let n = Nvr { id: NvrId::from("test-nvr-1".to_string()), name: Some("Test NVR".to_string()) };
    assert_eq!(nvrs::render_one(&n), "ID:   test-nvr-1\nName: Test NVR\n");
    let v = Viewer {
        id: ViewerId::from("v1".to_string()),
        name: None,
        mac: "BB".to_string(),
        state: "DISCONNECTED".to_string(),
        liveview: Some(LiveviewId::from("lv".to_string())),
    };
    assert_eq!(
        viewers::render_one(&v),
        "ID:       v1\nName:     \nMAC:      BB\nState:    DISCONNECTED\nLiveview: lv\n"
    );
    assert_eq!(viewers::render_table(&[]), "(no viewers)\n");
}

#[test]
fn client_builder_prefers_base_url_and_honours_insecure() {
    let resolved = EffectiveConfig {
        host: Some("nvr.local".to_string()),
        base_url: Some("http://127.0.0.1:9/".to_string()),
        api_key_file: None,
        insecure: true,
        json: false,
        log_level: LogLevel::Warn,
    };
    let plan = client_builder("k".to_string(), &resolved)
        .unwrap_or_else(|_| panic!("builder"))
        .plan()
        .unwrap_or_else(|_| panic!("plan"));
    assert_eq!(plan.base_url.url().as_str(), "http://127.0.0.1:9/");
    assert!(matches!(plan.tls, ferro_protect::client::TlsMode::AcceptInvalid));
    assert_eq!(plan.read_layers, vec![Layer::Retry, Layer::RateLimit]);

    let host_only = EffectiveConfig { base_url: None, insecure: false, ..resolved };
    let plan = client_builder("k".to_string(), &host_only)
        .unwrap_or_else(|_| panic!("builder"))
        .plan()
        .unwrap_or_else(|_| panic!("plan"));
    assert_eq!(plan.base_url.url().as_str(), "https://nvr.local/proxy/protect/integration/");
    assert!(matches!(plan.tls, ferro_protect::client::TlsMode::Native));

    let neither = EffectiveConfig { host: None, ..host_only };
    match client_builder("k".to_string(), &neither) {
        Err(m) => assert_eq!(m, "one of --host or --base-url is required"),
        Ok(_) => panic!("expected an error"),
    }
}

#[test]
fn tmp_sibling_sits_next_to_the_target() {
    assert_eq!(tmp_sibling("/home/me/.config/ferro-protect/config.toml", 42), "/home/me/.config/ferro-protect/.config.toml.tmp.42");
    assert_eq!(tmp_sibling("config.toml", 7), ".config.toml.tmp.7");
    assert_eq!(tmp_sibling("/", 1), "..tmp.1");
}

#[test]
fn template_directory_to_create() {
    assert_eq!(parent_dir_to_create("/home/me/.config/ferro-protect/config.toml"), Some("/home/me/.config/ferro-protect".to_string()));
    assert_eq!(parent_dir_to_create("config.toml"), None);
    assert_eq!(parent_dir_to_create("/"), None);
}

#[test]
fn template_and_config_messages() {
    assert_eq!(
        template_exists_message("/x/config.toml"),
        "/x/config.toml already exists. Pass `--force` to overwrite, or `--stdout` to print without writing."
    );
    match check_template_target("/x/config.toml", true, false) {
        Err(e) => assert_eq!(e.message(), template_exists_message("/x/config.toml")),
        Ok(()) => panic!("expected refusal"),
    }
    let e = ConfigCmdError::NoConfigFile { path: "/p".to_string() };
    assert_eq!(
        e.message(),
        "no config file at /p\nRun `ferro-protect config template` to create one, or point\n`--config` / `UNIFI_PROTECT_CONFIG_FILE` at an existing file."
    );
}

#[test]
fn snapshot_refusals_and_sinks() {
    assert!(check_snapshot_output_mode(false).is_ok());
    assert!(check_snapshot_output_mode(true).unwrap_err().contains("no JSON representation"));
    assert_eq!(snapshot_sink(Some("/tmp/s.jpg".to_string()), true), Ok(SnapshotSink::File("/tmp/s.jpg".to_string())));
    assert_eq!(snapshot_sink(None, false), Ok(SnapshotSink::Stdout));
    assert!(snapshot_sink(None, true).unwrap_err().starts_with("refusing to write JPEG bytes"));
}

#[test]
fn config_path_requires_a_regular_file() {
    match check_config_path("/etc/fp/config.toml".to_string(), true) {
        Ok(p) => assert_eq!(p, "/etc/fp/config.toml"),
        Err(_) => panic!("a file is there"),
    }
    match check_config_path("/etc/fp".to_string(), false) {
        Err(ConfigCmdError::NoConfigFile { path }) => assert_eq!(path, "/etc/fp"),
        _ => panic!("expected NoConfigFile"),
    }
}

#[test]
fn config_show_needs_a_loaded_file() {
    match require_loaded(Some(7u8), "/p".to_string()) {
        Ok(v) => assert_eq!(v, 7),
        Err(_) => panic!("loaded"),
    }
    match require_loaded::<u8>(None, "/p".to_string()) {
        Err(e) => {
            assert!(matches!(&e, ConfigCmdError::NoConfigFile { path } if path == "/p"));
            assert!(e.message().starts_with("no config file at /p\n"));
        }
        Ok(_) => panic!("expected NoConfigFile"),
    }
}

#[test]
fn other_error_message_is_its_text() {
    assert_eq!(ConfigCmdError::Other("boom".to_string()).message(), "boom");
}

#[test]
fn config_show_table_lists_fields_in_order() {
    let rows = vec![
        ferro_protect::commands::config::ShowRow { field: "host", value: "nvr.local".to_string() },
        ferro_protect::commands::config::ShowRow { field: "json", value: "false".to_string() },
    ];
    let out = render_rows(&rows);
    for cell in ["FIELD", "VALUE", "host", "nvr.local", "json", "false"] {
        assert!(out.contains(cell), "{cell} missing: {out}");
    }
    assert!(out.find("host").unwrap() < out.find("json").unwrap());
    assert!(out.ends_with('\n'));
}

#[test]
fn template_write_plan_refuses_or_writes_next_to_target() {
    match plan_template_write("/x/config.toml".to_string(), true, false, 42) {
        Err(e) => assert!(e.message().contains("already exists")),
        Ok(_) => panic!("expected refusal"),
    }
    match plan_template_write("/x/config.toml".to_string(), true, true, 42) {
        Ok(w) => {
            assert_eq!(w.body, build_template());
            assert_eq!(w.dir.as_deref(), Some("/x"));
            assert_eq!(w.tmp, "/x/.config.toml.tmp.42");
            assert_eq!(w.target, "/x/config.toml");
        }
        Err(_) => panic!("force overwrites"),
    }
}
