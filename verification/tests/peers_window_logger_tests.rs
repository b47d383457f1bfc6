use hylarana::codec::LogLevel;
use hylarana::devices::DeviceType;
use hylarana::hylarana::Error;
use hylarana::logger::{logger_config, record_line, module_level_overrides, strip_newline, AndroidLogLevel, AndroidLogger, LevelFilter};
use hylarana::media::MediaStreamDescription;
use hylarana::net::IpAddress;
use hylarana::peers::{DeviceMetadata, PeerDevices, ServiceMessage};
use hylarana::window::{broadcast_targets, handling_window, EventTarget, Events, WindowId};

fn message(targets: &[&str], name: &str) -> ServiceMessage {
    ServiceMessage {
        targets: targets.iter().map(|t| t.to_string()).collect(),
        name: name.to_string(),
        kind: DeviceType::Android,
        metadata: Some(DeviceMetadata {
            port: 4000,
            description: MediaStreamDescription { video: None, audio: None },
        }),
    }
}

#[test]
fn metadata_meant_for_others_is_ignored() {
    let mut p = PeerDevices::new();
    assert!(!p.on_metadata("me", "peer", IpAddress::V4(1), message(&["other"], "tv")));
    assert!(p.get_devices().is_empty());
    assert!(p.on_metadata("me", "peer", IpAddress::V4(1), message(&["other", "me"], "tv")));
    assert_eq!(p.get_devices().len(), 1);
    assert!(p.on_metadata("me", "peer2", IpAddress::V4(2), message(&[], "phone")));
    assert_eq!(p.get_devices().len(), 2);
}

#[test]
fn metadata_replaces_and_offline_removes() {
    let mut p = PeerDevices::new();
    p.on_metadata("me", "peer", IpAddress::V4(1), message(&[], "tv"));
    p.on_metadata("me", "peer", IpAddress::V4(9), message(&[], "tv2"));
    let list = p.get_devices();
    assert_eq!(list.len(), 1);
    assert_eq!(list[0].name, "tv2");
    assert_eq!(list[0].ip, IpAddress::V4(9));
    assert_eq!(list[0].kind, DeviceType::Android);
    assert_eq!(list[0].metadata.map(|m| m.port), Some(4000));
    p.offline("unknown");
    assert_eq!(p.get_devices().len(), 1);
    p.offline("peer");
    assert!(p.get_devices().is_empty());
}

#[test]
fn windows_and_events() {
    assert_eq!(WindowId::all(), [WindowId::Main, WindowId::Screen]);
    assert_eq!(
        broadcast_targets(Events::CloseRequested),
        vec![(WindowId::Main, Events::CloseRequested), (WindowId::Screen, Events::CloseRequested)]
    );
    assert_eq!(handling_window(EventTarget::Remote), Some(EventTarget::Remote));
    assert_eq!(handling_window(EventTarget::Frontend), Some(EventTarget::Frontend));
    assert_eq!(handling_window(EventTarget::Main), None);
}

#[test]
fn logger_levels_and_texts() {
    assert_eq!(AndroidLogLevel::from_level(LogLevel::Trace), AndroidLogLevel::Verbose);
    assert_eq!(AndroidLogLevel::from_level(LogLevel::Warn), AndroidLogLevel::Warn);
    assert_eq!(AndroidLogLevel::Verbose.priority(), 2);
    assert_eq!(AndroidLogLevel::Error.priority(), 6);
    let logger = AndroidLogger::new("com.example.app");
    assert_eq!(logger.tag(), "com.example.app\0");
    assert_eq!(AndroidLogger::text(Some("src/lib.rs"), "hi"), "(src/lib.rs) - hi\0");
    assert_eq!(AndroidLogger::text(None, "hi"), "(*) - hi\0");
    assert_eq!(strip_newline("decoder ready\n"), "decoder ready");
    assert_eq!(strip_newline("no newline"), "no newline");
    assert_eq!(strip_newline("\n\n"), "\n");
    assert_eq!(strip_newline(""), "");
    let overrides = module_level_overrides();
    assert_eq!(overrides.len(), 4);
    assert_eq!(overrides[0], ("wgpu".to_string(), LevelFilter::Warn));
    assert_eq!(overrides[3], ("wgpu_hal::auxil::dxgi::exception".to_string(), LevelFilter::Error));
}

#[test]
fn status_codes_convert() {
    let e: Error = (-50i32).into();
    assert_eq!(e, Error(-50));
}

#[test]
fn logger_setup_and_lines() {
    let c = logger_config(LevelFilter::Info, Some("/tmp/hylarana/logs/"));
    assert_eq!(c.level, LevelFilter::Info);
    assert_eq!(c.overrides.len(), 4);
    assert_eq!(c.overrides[2], ("wgpu_hal".to_string(), LevelFilter::Warn));
    assert_eq!(
        c.files,
        Some(("/tmp/hylarana/logs/".to_string(), "%Y-%m-%d-hylarana.log".to_string()))
    );
    assert_eq!(logger_config(LevelFilter::Debug, None).files, None);
    assert_eq!(record_line(LogLevel::Warn, Some("src/main.rs"), "low disk"), "[WARN] - (src/main.rs) - low disk");
    assert_eq!(record_line(LogLevel::Trace, None, "x"), "[TRACE] - (*) - x");
}

#[test]
fn android_entry_carries_priority_tag_and_text() {
    let logger = AndroidLogger::new("com.example.app");
    let (priority, tag, text) = logger.entry(LogLevel::Info, Some("src/main.rs"), "started");
    assert_eq!(priority, 4);
    assert_eq!(tag, "com.example.app\0");
    assert_eq!(text, "(src/main.rs) - started\0");
    let (priority, _, text) = logger.entry(LogLevel::Trace, None, "x");
    assert_eq!(priority, 2);
    assert_eq!(text, "(*) - x\0");
}
