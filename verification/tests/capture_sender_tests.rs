use hylarana::capture::{
    audio_sources, camera_sources, screen_audio_sources, CameraDevice, CaptureOptions, Source,
    SourceType,
};
use hylarana::codec::VideoEncoderType;
use hylarana::media::{Size, VideoFormat};
use hylarana::sender::{
    audio_capture_description, sender_description, video_capture_description, AudioOptions,
    CloseNotifier, HylaranaSenderMediaOptions, HylaranaSenderTrackOptions, VideoOptions,
};

fn camera(name: Option<&str>, link: Option<&str>) -> CameraDevice {
    CameraDevice {
        name: name.map(|s| s.to_string()),
        link: link.map(|s| s.to_string()),
    }
}

#[test]
fn cameras_without_name_or_link_are_skipped() {
    let devices = vec![
        camera(None, Some("link-a")),
        camera(Some("Front"), Some("link-b")),
        camera(Some("Nameless"), None),
        camera(Some("Back"), Some("link-c")),
    ];
    let sources = camera_sources(&devices);
    assert_eq!(sources.len(), 2);
    assert_eq!(sources[0].name, "Front");
    assert_eq!(sources[0].id, "link-b");
    assert_eq!(sources[0].index, 0);
    assert!(sources[0].is_default);
    assert_eq!(sources[1].name, "Back");
    assert_eq!(sources[1].index, 1);
    assert!(!sources[1].is_default);
    assert!(sources.iter().all(|s| s.kind == SourceType::Camera));
    assert!(camera_sources(&Vec::new()).is_empty());
}

#[test]
fn audio_sources_mark_the_default_device() {
    let names = vec!["Speakers".to_string(), "Headset".to_string(), "Mic".to_string()];
    let sources = audio_sources(&names, &Some("Headset".to_string()));
    assert_eq!(sources.len(), 3);
    let defaults: Vec<bool> = sources.iter().map(|s| s.is_default).collect();
    assert_eq!(defaults, vec![false, true, false]);
    assert_eq!(sources[2].id, "Mic");
    assert_eq!(sources[2].index, 2);
    assert_eq!(sources[2].kind, SourceType::Audio);
    let none = audio_sources(&names, &None);
    assert!(none.iter().all(|s| !s.is_default));
}

#[test]
fn screen_audio_is_one_default_source() {
    let sources = screen_audio_sources();
    assert_eq!(sources.len(), 1);
    assert_eq!(sources[0].name, "screen audio");
    assert_eq!(sources[0].id, "screen audio");
    assert!(sources[0].is_default);
    assert_eq!(sources[0].kind, SourceType::Audio);
}

#[test]
fn empty_capture_options() {
    let o: CaptureOptions<(), ()> = CaptureOptions::default();
    assert!(o.video.is_none());
    assert!(o.audio.is_none());
}

fn source(kind: SourceType) -> Source {
    Source {
        id: "id-1".to_string(),
        name: "Display 1".to_string(),
        index: 3,
        kind,
        is_default: true,
    }
}

fn video_track(codec: VideoEncoderType) -> HylaranaSenderTrackOptions<VideoOptions> {
    HylaranaSenderTrackOptions {
        source: source(SourceType::Screen),
        options: VideoOptions {
            codec,
            frame_rate: 24,
            width: 1920,
            height: 1080,
            bit_rate: 500_000,
            key_frame_interval: 12,
        },
    }
}

#[test]
fn sender_description_is_nv12_and_stereo() {
    let media = HylaranaSenderMediaOptions {
        video: Some(video_track(VideoEncoderType::X265)),
        audio: Some(HylaranaSenderTrackOptions {
            source: source(SourceType::Audio),
            options: AudioOptions { sample_rate: 48_000, bit_rate: 64_000 },
        }),
    };
    let d = sender_description(&media);
    let v = d.video.unwrap();
    assert_eq!(v.format, VideoFormat::NV12);
    assert_eq!(v.size, Size { width: 1920, height: 1080 });
    assert_eq!(v.fps, 24);
    assert_eq!(v.bit_rate, 500_000);
    let a = d.audio.unwrap();
    assert_eq!(a.channels, 2);
    assert_eq!(a.sample_rate, 48_000);
    assert_eq!(a.bit_rate, 64_000);

    let silent = HylaranaSenderMediaOptions { video: None, audio: None };
    let d = sender_description(&silent);
    assert!(d.video.is_none() && d.audio.is_none());
}

#[test]
fn capture_descriptions_follow_the_track() {
    let soft = video_capture_description(&video_track(VideoEncoderType::X265));
    assert!(!soft.hardware);
    assert_eq!(soft.fps, 24);
    assert_eq!(soft.size, Size { width: 1920, height: 1080 });
    assert_eq!(soft.source.id, "id-1");
    assert_eq!(soft.source.index, 3);
    let hard = video_capture_description(&video_track(VideoEncoderType::Qsv));
    assert!(hard.hardware);

    let audio = audio_capture_description(&HylaranaSenderTrackOptions {
        source: source(SourceType::Audio),
        options: AudioOptions { sample_rate: 44_100, bit_rate: 64_000 },
    });
    assert_eq!(audio.sample_rate, 44_100);
    assert_eq!(audio.source.name, "Display 1");
}

#[test]
fn close_notifies_once() {
    let mut n = CloseNotifier::new();
    assert!(n.close());
    assert!(!n.close());
    assert!(!n.close());
}
