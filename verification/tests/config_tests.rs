use hylarana::app_config;
use hylarana::desktop_config;
use hylarana::codec::{VideoDecoderType, VideoEncoderType};
use hylarana::net::{IpAddress, SocketAddress};
use hylarana::paths::{default_username, home_device_name, normalize_path, username_from};
use hylarana::platform::Platform;

#[test]
fn normalize_windows_paths() {
    assert_eq!(normalize_path("\\\\?\\C:\\Program Files\\hylarana"), "C:/Program Files/hylarana");
    assert_eq!(normalize_path("C:\\a\\b"), "C:/a/b");
    assert_eq!(normalize_path("/usr/share/hylarana"), "/usr/share/hylarana");
    assert_eq!(normalize_path(""), "");
}

#[test]
fn username_takes_the_first_non_empty_trimmed_value() {
    let env = vec![None, Some("  \t".to_string()), Some("  alice \n".to_string())];
    assert_eq!(default_username(&env, &Some("home".to_string())), "alice");
    let blank = vec![Some("   ".to_string())];
    assert_eq!(default_username(&blank, &Some("bob".to_string())), "bob");
    assert_eq!(default_username(&blank, &Some(String::new())), "unknown");
    assert_eq!(default_username(&Vec::new(), &None), "unknown");
    let already = vec![Some("".to_string()), Some("carol".to_string())];
    assert_eq!(username_from(&already, &None), "carol");
}

#[test]
fn device_name_from_home() {
    assert_eq!(home_device_name("C:\\Users\\dave", Platform::Windows), "dave-windows");
    assert_eq!(home_device_name("/home/erin", Platform::Linux), "erin-linux");
    assert_eq!(home_device_name("/Users/fay", Platform::MacOS), "fay-macos");
    assert_eq!(home_device_name("/home/gus/", Platform::Linux), "-linux");
}

#[test]
fn desktop_defaults() {
    assert_eq!(desktop_config::AppConfig::default_uri(), "webview://localhost/index.html");
    assert_eq!(
        desktop_config::AppConfig::cheme_path_candidates(Platform::Linux),
        vec!["webview".to_string(), "../app/webview".to_string()]
    );
    assert_eq!(
        desktop_config::AppConfig::cheme_path_candidates(Platform::MacOS),
        vec!["../Resources/webview".to_string()]
    );
    let resolved = vec![None, Some("\\\\?\\D:\\app\\webview".to_string())];
    assert_eq!(
        desktop_config::AppConfig::default_cheme_path(&resolved),
        "D:/app/webview"
    );
    assert_eq!(desktop_config::first_existing_path(&vec![None, None]), None);
    assert_eq!(
        desktop_config::AppConfig::default_cheme_path(&vec![Some("a\\b".to_string()), Some("c".to_string())]),
        "a/b"
    );
    assert_eq!(
        desktop_config::AppConfig::subprocess_child(Platform::Windows),
        Some("hylarana-app-helper.exe".to_string())
    );
    assert_eq!(desktop_config::AppConfig::subprocess_child(Platform::Linux), None);
    assert_eq!(
        desktop_config::AppConfig::default_subprocess_path("C:\\x\\helper.exe"),
        "C:/x/helper.exe"
    );
    assert_eq!(desktop_config::AppConfig::default_cache_path("C:\\cache\\hylarana"), "C:/cache/hylarana");
    assert_eq!(
        desktop_config::AppConfig::default_username(&vec![Some(" zed ".to_string())], &None),
        "zed"
    );
}

#[test]
fn desktop_settings_defaults() {
    let c = desktop_config::Configure::default("/home/ann", Platform::Linux);
    assert_eq!(c.system.name, "ann");
    assert_eq!(c.system.language, "english");
    assert_eq!(c.network.interface, 0);
    assert_eq!(c.network.multicast, u32::from_be_bytes([239, 0, 0, 1]));
    assert_eq!(c.network.server, None);
    assert_eq!(c.network.port, 8080);
    assert_eq!(c.network.mtu, 1400);
    assert_eq!(c.codec.encoder, VideoEncoderType::X265);
    assert_eq!(c.codec.decoder, VideoDecoderType::HEVC);
    assert_eq!(c.video.bit_rate, 10_000_000);
    assert_eq!((c.video.width, c.video.height, c.video.frame_rate), (1280, 720, 30));
    assert_eq!(c.video.key_frame_interval, 30);
    assert_eq!((c.audio.sample_rate, c.audio.bit_rate), (48_000, 64_000));
    let mac = desktop_config::Codec::default(Platform::MacOS);
    assert_eq!(mac.encoder, VideoEncoderType::VideoToolBox);
    assert_eq!(mac.decoder, VideoDecoderType::VideoToolBox);
}

#[test]
fn application_defaults() {
    assert_eq!(app_config::AppConfig::default_uri(), "webview://index.html");
    assert_eq!(app_config::AppConfig::cheme_child(Platform::MacOS), "../Resources/webview");
    assert_eq!(app_config::AppConfig::cheme_child(Platform::Windows), "webview");
    assert_eq!(app_config::AppConfig::default_cheme_path("\\\\?\\E:\\w"), "E:/w");
    assert_eq!(
        app_config::AppConfig::subprocess_child(Platform::MacOS),
        Some("../Frameworks/Hylarana Helper.app/Contents/MacOS/Hylarana Helper".to_string())
    );
    assert_eq!(app_config::AppConfig::subprocess_child(Platform::Android), None);
    assert_eq!(app_config::AppConfig::default_subprocess_path("a\\b"), "a/b");
    assert_eq!(app_config::AppConfig::default_username("C:\\Users\\kim", Platform::Windows), "kim-windows");
    let s = app_config::System::default("kim-windows");
    assert_eq!((s.name.as_str(), s.language.as_str()), ("kim-windows", "english"));
    assert_eq!(
        app_config::Video::default(),
        app_config::Video { width: 1280, height: 720, frame_rate: 30, bit_rate: 5_000_000, key_frame_interval: 30 }
    );
    assert_eq!(app_config::Audio::default(), app_config::Audio { sample_rate: 48_000, bit_rate: 64_000 });
    assert_eq!(
        app_config::default_bind_address(),
        SocketAddress { ip: IpAddress::V4(0), port: 43165 }
    );
    let c = app_config::Codec::default(Platform::Windows);
    assert_eq!(c.encoder, VideoEncoderType::X265);
}

#[test]
fn trimming_follows_str_trim() {
    let mut candidates: Vec<char> = (0u32..0x3100).filter_map(char::from_u32).filter(|c| c.is_whitespace()).collect();
    candidates.extend(['\u{200b}', '\u{feff}', '\u{180e}', 'a', '-', '\u{0}']);
    for c in candidates {
        let value = format!("{c}{c}x y{c}");
        let expected = value.trim().to_string();
        let got = default_username(&vec![Some(value.clone())], &None);
        if expected.is_empty() {
            assert_eq!(got, "unknown");
        } else {
            assert_eq!(got, expected, "for U+{:04X}", c as u32);
        }
    }
    assert_eq!(default_username(&vec![Some("\u{3000}name\u{a0}".to_string())], &None), "name");
}

#[test]
fn environment_paths_and_first_settings() {
    let p = app_config::env_paths("/opt/hylarana");
    assert_eq!(p.cache_path, "/opt/hylarana/caches");
    assert_eq!(p.settings_path, "/opt/hylarana/caches/settings");
    assert_eq!(p.scheme_path, "/opt/hylarana/resources");
    assert_eq!(app_config::Settings::first_start(1_700_000_123).name, "1700000123");
    assert_eq!(app_config::Settings::first_start(0).name, "0");
    assert_eq!(app_config::decimal_string(u64::MAX), u64::MAX.to_string());
    assert_eq!(app_config::decimal_string(10), "10");
}
