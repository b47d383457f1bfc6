use hylarana::codec::{
    decoder_options, encoder_config, set_bit_rate, CodecLookup, CodecNameError, CodecOptionValue,
    CodecType, EncoderPixelFormat, LogLevel, LoggerLevel, VideoDecoderSettings, VideoDecoderType,
    VideoEncoderSettings, VideoEncoderType,
};
use hylarana::platform::Platform;

#[test]
fn decoder_names_round_trip() {
    for t in [
        VideoDecoderType::HEVC,
        VideoDecoderType::D3D11,
        VideoDecoderType::Qsv,
        VideoDecoderType::VideoToolBox,
    ] {
        let name = t.to_string();
        assert_eq!(VideoDecoderType::from_str(&name).unwrap(), t);
    }
    assert_eq!(VideoDecoderType::D3D11.to_string(), "d3d11va");
    assert_eq!(VideoDecoderType::VideoToolBox.to_string(), "hevc_videotoolbox");
}

#[test]
fn encoder_names_round_trip() {
    for t in [
        VideoEncoderType::X265,
        VideoEncoderType::Qsv,
        VideoEncoderType::VideoToolBox,
    ] {
        let name = t.to_string();
        assert_eq!(VideoEncoderType::from_str(&name).unwrap(), t);
    }
    assert_eq!(VideoEncoderType::X265.to_string(), "libx265");
}

#[test]
fn unknown_codec_name_is_refused_with_the_name() {
    match VideoDecoderType::from_str("h264") {
        Err(CodecNameError::InvalidInput(name)) => assert_eq!(name, "h264"),
        Ok(_) => panic!("unknown decoder accepted"),
    }
    match VideoEncoderType::from_str("hevc") {
        Err(CodecNameError::InvalidInput(name)) => assert_eq!(name, "hevc"),
        Ok(_) => panic!("decoder name accepted as encoder"),
    }
}

#[test]
fn codec_support_per_platform() {
    let vt = CodecType::Encoder(VideoEncoderType::VideoToolBox);
    let qsv = CodecType::Decoder(VideoDecoderType::Qsv);
    let soft = CodecType::Encoder(VideoEncoderType::X265);
    assert!(!vt.is_supported(Platform::Windows));
    assert!(vt.is_supported(Platform::MacOS));
    assert!(qsv.is_supported(Platform::Windows));
    assert!(!qsv.is_supported(Platform::Linux));
    assert!(!qsv.is_supported(Platform::MacOS));
    for p in [Platform::Windows, Platform::MacOS, Platform::Linux, Platform::Android] {
        assert!(soft.is_supported(p));
    }
    assert!(!CodecType::Decoder(VideoDecoderType::D3D11).is_supported(Platform::Linux));
}

#[test]
fn codec_kind_queries() {
    let enc: CodecType = VideoEncoderType::Qsv.into();
    let dec: CodecType = VideoDecoderType::HEVC.into();
    assert!(enc.is_encoder());
    assert!(!dec.is_encoder());
    assert!(enc.is_qsv());
    assert!(!dec.is_qsv());
    assert!(enc.is_hardware());
    assert!(!dec.is_hardware());
    assert!(!CodecType::Encoder(VideoEncoderType::X265).is_hardware());
}

#[test]
fn codec_lookup() {
    match CodecType::Decoder(VideoDecoderType::D3D11).find_av_codec() {
        CodecLookup::HevcDecoder => {}
        other => panic!("unexpected {:?}", other),
    }
    match CodecType::Decoder(VideoDecoderType::Qsv).find_av_codec() {
        CodecLookup::ByName(n) => assert_eq!(n, "hevc_qsv"),
        other => panic!("unexpected {:?}", other),
    }
    match CodecType::Encoder(VideoEncoderType::X265).find_av_codec() {
        CodecLookup::ByName(n) => assert_eq!(n, "libx265"),
        other => panic!("unexpected {:?}", other),
    }
}

fn settings(codec: VideoEncoderType, bit_rate: u64) -> VideoEncoderSettings {
    VideoEncoderSettings {
        codec,
        frame_rate: 30,
        width: 1280,
        height: 720,
        bit_rate,
        key_frame_interval: 15,
    }
}

#[test]
fn x265_encoder_config() {
    let c = encoder_config(settings(VideoEncoderType::X265, 10_000_000));
    assert_eq!(c.pix_fmt, EncoderPixelFormat::Nv12);
    assert_eq!(c.thread_count, Some(4));
    assert_eq!(c.rate.bit_rate, 10_000_000);
    assert_eq!(c.rate.rc_max_rate, 10_000_000);
    assert_eq!(c.rate.rc_buffer_size, 10_000_000);
    assert_eq!(c.rate.rc_initial_buffer_occupancy, 7_500_000);
    assert_eq!(c.bit_rate_tolerance, 1_000_000);
    assert_eq!(c.framerate, (30, 1));
    assert_eq!(c.time_base, (1, 30));
    assert_eq!(c.gop_size, 15);
    assert_eq!((c.width, c.height), (1280, 720));
    assert_eq!(c.options.len(), 3);
    assert_eq!(c.options[0].0, "preset");
    assert!(matches!(&c.options[0].1, CodecOptionValue::Text(v) if v == "superfast"));
    assert_eq!(c.options[1].0, "tune");
    assert!(matches!(&c.options[1].1, CodecOptionValue::Text(v) if v == "zerolatency"));
    assert_eq!(c.options[2].0, "sc_threshold");
    assert!(matches!(c.options[2].1, CodecOptionValue::Int(15)));
}

#[test]
fn qsv_encoder_halves_the_bit_rate() {
    let c = encoder_config(settings(VideoEncoderType::Qsv, 10_000_001));
    assert_eq!(c.pix_fmt, EncoderPixelFormat::Qsv);
    assert_eq!(c.thread_count, None);
    assert_eq!(c.rate.bit_rate, 5_000_000);
    assert_eq!(c.rate.rc_initial_buffer_occupancy, 3_750_000);
    assert_eq!(c.bit_rate_tolerance, 500_000);
    let names: Vec<&str> = c.options.iter().map(|o| o.0.as_str()).collect();
    assert_eq!(names, vec!["async_depth", "low_power", "vcm"]);
}

#[test]
fn videotoolbox_encoder_options() {
    let c = encoder_config(settings(VideoEncoderType::VideoToolBox, 4_000_000));
    assert_eq!(c.pix_fmt, EncoderPixelFormat::VideoToolbox);
    let names: Vec<&str> = c.options.iter().map(|o| o.0.as_str()).collect();
    assert_eq!(names, vec!["realtime", "coder"]);
}

#[test]
fn bit_rate_update() {
    let r = set_bit_rate(2_000_000);
    assert_eq!(r.bit_rate, 2_000_000);
    assert_eq!(r.rc_max_rate, 2_000_000);
    assert_eq!(r.rc_buffer_size, 2_000_000);
    assert_eq!(r.rc_initial_buffer_occupancy, 1_500_000);
}

#[test]
fn decoder_private_options() {
    let q = decoder_options(VideoDecoderSettings { codec: VideoDecoderType::Qsv });
    assert_eq!(q.len(), 1);
    assert_eq!(q[0].0, "async_depth");
    assert!(matches!(q[0].1, CodecOptionValue::Int(1)));
    assert!(decoder_options(VideoDecoderSettings { codec: VideoDecoderType::HEVC }).is_empty());
}

#[test]
fn codec_log_levels() {
    assert_eq!(LoggerLevel::from_code(0), Some(LoggerLevel::Panic));
    assert_eq!(LoggerLevel::from_code(40), Some(LoggerLevel::Verbose));
    assert_eq!(LoggerLevel::from_code(56), Some(LoggerLevel::Trace));
    assert_eq!(LoggerLevel::from_code(12), None);
    assert_eq!(LoggerLevel::Fatal.into_level(), LogLevel::Error);
    assert_eq!(LoggerLevel::Verbose.into_level(), LogLevel::Info);
    assert_eq!(LoggerLevel::Warn.into_level(), LogLevel::Warn);
}

#[test]
fn group_of_pictures_is_the_key_frame_interval() {
    let mut options = settings(VideoEncoderType::VideoToolBox, 4_000_000);
    options.key_frame_interval = 60;
    assert_eq!(encoder_config(options).gop_size, 60);
    options.key_frame_interval = 0;
    assert_eq!(encoder_config(options).gop_size, 0);
}
