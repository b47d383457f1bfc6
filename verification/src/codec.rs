use vstd::prelude::*;

use crate::media::{Size, VideoSubFormat};
use crate::platform::Platform;
use crate::text::{owned, str_equals};

verus! {

/// Video decoder type.
#[derive(Debug, Clone, Copy, PartialEq, Eq, Structural)]
pub enum VideoDecoderType {
    /// Software HEVC decoding.
    HEVC,
    /// Accelerated decoding through the Direct3D 11 video APIs.
    D3D11,
    /// Intel Quick Sync Video.
    Qsv,
    /// Apple VideoToolbox.
    VideoToolBox,
}

/// Video encoder type.
#[derive(Debug, Clone, Copy, PartialEq, Eq, Structural)]
pub enum VideoEncoderType {
    /// Software x265 encoding.
    X265,
    /// Intel Quick Sync Video.
    Qsv,
    /// Apple VideoToolbox.
    VideoToolBox,
}

/// A codec name that names no known codec.
#[derive(Debug)]
pub enum CodecNameError {
    InvalidInput(String),
}

/// The name under which a decoder is known to the codec library.
pub open spec fn decoder_name(t: VideoDecoderType) -> Seq<char> {
    match t {
        VideoDecoderType::HEVC => "hevc"@,
        VideoDecoderType::D3D11 => "d3d11va"@,
        VideoDecoderType::Qsv => "hevc_qsv"@,
        VideoDecoderType::VideoToolBox => "hevc_videotoolbox"@,
    }
}

/// The decoder a name stands for, if any.
pub open spec fn decoder_from_name(s: Seq<char>) -> Option<VideoDecoderType> {
    if s == "hevc"@ {
        Some(VideoDecoderType::HEVC)
    } else if s == "d3d11va"@ {
        Some(VideoDecoderType::D3D11)
    } else if s == "hevc_qsv"@ {
        Some(VideoDecoderType::Qsv)
    } else if s == "hevc_videotoolbox"@ {
        Some(VideoDecoderType::VideoToolBox)
    } else {
        None
    }
}

/// The name under which an encoder is known to the codec library.
pub open spec fn encoder_name(t: VideoEncoderType) -> Seq<char> {
    match t {
        VideoEncoderType::X265 => "libx265"@,
        VideoEncoderType::Qsv => "hevc_qsv"@,
        VideoEncoderType::VideoToolBox => "hevc_videotoolbox"@,
    }
}

/// The encoder a name stands for, if any.
pub open spec fn encoder_from_name(s: Seq<char>) -> Option<VideoEncoderType> {
    if s == "libx265"@ {
        Some(VideoEncoderType::X265)
    } else if s == "hevc_qsv"@ {
        Some(VideoEncoderType::Qsv)
    } else if s == "hevc_videotoolbox"@ {
        Some(VideoEncoderType::VideoToolBox)
    } else {
        None
    }
}

impl VideoDecoderType {
    /// The codec library name of this decoder.
    pub fn to_string(&self) -> (s: String)
        ensures
            s@ == decoder_name(*self),
    {
        match self {
            VideoDecoderType::HEVC => owned("hevc"),
            VideoDecoderType::D3D11 => owned("d3d11va"),
            VideoDecoderType::Qsv => owned("hevc_qsv"),
            VideoDecoderType::VideoToolBox => owned("hevc_videotoolbox"),
        }
    }

    /// Parses a codec library name; any other name is refused and handed back.
    pub fn from_str(value: &str) -> (r: Result<VideoDecoderType, CodecNameError>)
        ensures
            match decoder_from_name(value@) {
                Some(t) => r == Ok::<VideoDecoderType, CodecNameError>(t),
                None => r matches Err(CodecNameError::InvalidInput(v)) && v@ == value@,
            },
    {
        if str_equals(value, "hevc") {
            Ok(VideoDecoderType::HEVC)
        } else if str_equals(value, "d3d11va") {
            Ok(VideoDecoderType::D3D11)
        } else if str_equals(value, "hevc_qsv") {
            Ok(VideoDecoderType::Qsv)
        } else if str_equals(value, "hevc_videotoolbox") {
            Ok(VideoDecoderType::VideoToolBox)
        } else {
            Err(CodecNameError::InvalidInput(owned(value)))
        }
    }
}

impl VideoEncoderType {
    /// The codec library name of this encoder.
    pub fn to_string(&self) -> (s: String)
        ensures
            s@ == encoder_name(*self),
    {
        match self {
            VideoEncoderType::X265 => owned("libx265"),
            VideoEncoderType::Qsv => owned("hevc_qsv"),
            VideoEncoderType::VideoToolBox => owned("hevc_videotoolbox"),
        }
    }

    /// Parses a codec library name; any other name is refused and handed back.
    pub fn from_str(value: &str) -> (r: Result<VideoEncoderType, CodecNameError>)
        ensures
            match encoder_from_name(value@) {
                Some(t) => r == Ok::<VideoEncoderType, CodecNameError>(t),
                None => r matches Err(CodecNameError::InvalidInput(v)) && v@ == value@,
            },
    {
        if str_equals(value, "libx265") {
            Ok(VideoEncoderType::X265)
        } else if str_equals(value, "hevc_qsv") {
            Ok(VideoEncoderType::Qsv)
        } else if str_equals(value, "hevc_videotoolbox") {
            Ok(VideoEncoderType::VideoToolBox)
        } else {
            Err(CodecNameError::InvalidInput(owned(value)))
        }
    }
}

/// Every decoder name parses back to the decoder it names.
pub proof fn lemma_decoder_name_round_trip(t: VideoDecoderType)
    ensures
        decoder_from_name(decoder_name(t)) == Some(t),
{
    reveal_strlit("hevc");
    reveal_strlit("d3d11va");
    reveal_strlit("hevc_qsv");
    reveal_strlit("hevc_videotoolbox");
    assert("hevc"@.len() == 4 && "d3d11va"@.len() == 7);
    assert("hevc_qsv"@.len() == 8 && "hevc_videotoolbox"@.len() == 17);
}

/// Every encoder name parses back to the encoder it names.
pub proof fn lemma_encoder_name_round_trip(t: VideoEncoderType)
    ensures
        encoder_from_name(encoder_name(t)) == Some(t),
{
    reveal_strlit("libx265");
    reveal_strlit("hevc_qsv");
    reveal_strlit("hevc_videotoolbox");
    assert("libx265"@.len() == 7 && "hevc_qsv"@.len() == 8);
    assert("hevc_videotoolbox"@.len() == 17);
}

/// Each codec is known to the codec library by a fixed HEVC name: the
/// encoders as `libx265`, `hevc_qsv` and `hevc_videotoolbox`, the decoders
/// as `hevc`, `d3d11va`, `hevc_qsv` and `hevc_videotoolbox`; a hardware
/// encoder has the name of the decoder of its family.
pub proof fn lemma_codec_library_names()
    ensures
        decoder_name(VideoDecoderType::HEVC) == "hevc"@,
        decoder_name(VideoDecoderType::D3D11) == "d3d11va"@,
        decoder_name(VideoDecoderType::Qsv) == "hevc_qsv"@,
        decoder_name(VideoDecoderType::VideoToolBox) == "hevc_videotoolbox"@,
        encoder_name(VideoEncoderType::X265) == "libx265"@,
        encoder_name(VideoEncoderType::Qsv) == "hevc_qsv"@,
        encoder_name(VideoEncoderType::VideoToolBox) == "hevc_videotoolbox"@,
        encoder_name(VideoEncoderType::Qsv) == decoder_name(VideoDecoderType::Qsv),
        encoder_name(VideoEncoderType::VideoToolBox) == decoder_name(VideoDecoderType::VideoToolBox),
        encoder_from_name("hevc_videotoolbox"@) == Some(VideoEncoderType::VideoToolBox),
        encoder_from_name("hevc_qsv"@) == Some(VideoEncoderType::Qsv),
        encoder_from_name("libx265"@) == Some(VideoEncoderType::X265),
{
    lemma_encoder_name_round_trip(VideoEncoderType::X265);
    lemma_encoder_name_round_trip(VideoEncoderType::Qsv);
    lemma_encoder_name_round_trip(VideoEncoderType::VideoToolBox);
}

/// A codec together with its direction.
#[derive(Debug, Clone, Copy, PartialEq, Eq, Structural)]
pub enum CodecType {
    Encoder(VideoEncoderType),
    Decoder(VideoDecoderType),
}

/// The codec type is not available on this platform.
#[derive(Debug, Clone, Copy, PartialEq, Eq, Structural)]
pub enum CodecError {
    NotSupportCodec,
}

impl From<VideoEncoderType> for CodecType {
    fn from(value: VideoEncoderType) -> (r: CodecType) {
        CodecType::Encoder(value)
    }
}

impl vstd::std_specs::convert::FromSpecImpl<VideoEncoderType> for CodecType {
    open spec fn obeys_from_spec() -> bool {
        true
    }

    open spec fn from_spec(value: VideoEncoderType) -> CodecType {
        CodecType::Encoder(value)
    }
}

impl From<VideoDecoderType> for CodecType {
    fn from(value: VideoDecoderType) -> (r: CodecType) {
        CodecType::Decoder(value)
    }
}

impl vstd::std_specs::convert::FromSpecImpl<VideoDecoderType> for CodecType {
    open spec fn obeys_from_spec() -> bool {
        true
    }

    open spec fn from_spec(value: VideoDecoderType) -> CodecType {
        CodecType::Decoder(value)
    }
}

/// How the codec library is asked for a codec.
#[derive(Debug)]
pub enum CodecLookup {
    /// By the codec's library name.
    ByName(String),
    /// The generic HEVC decoder, to which a hardware context is attached.
    HevcDecoder,
}

/// Whether a codec can be used on a platform.
pub open spec fn supported_on(kind: CodecType, platform: Platform) -> bool {
    match kind {
        CodecType::Encoder(k) => match platform {
            Platform::Windows => k != VideoEncoderType::VideoToolBox,
            Platform::Linux => k == VideoEncoderType::X265,
            _ => k == VideoEncoderType::X265 || k == VideoEncoderType::VideoToolBox,
        },
        CodecType::Decoder(k) => match platform {
            Platform::Windows => k != VideoDecoderType::VideoToolBox,
            Platform::Linux => k == VideoDecoderType::HEVC,
            _ => k == VideoDecoderType::HEVC || k == VideoDecoderType::VideoToolBox,
        },
    }
}

/// The counterpart of an encoder among the decoders: the decoder of the
/// same family.
pub open spec fn decoder_of_family(k: VideoEncoderType) -> VideoDecoderType {
    match k {
        VideoEncoderType::X265 => VideoDecoderType::HEVC,
        VideoEncoderType::Qsv => VideoDecoderType::Qsv,
        VideoEncoderType::VideoToolBox => VideoDecoderType::VideoToolBox,
    }
}

/// Support goes by family: an encoder is usable on a platform exactly when
/// the decoder of its family is. The software codecs are usable everywhere,
/// VideoToolbox on macOS and never on Windows or Linux, QSV on Windows only.
pub proof fn lemma_codec_support(k: VideoEncoderType, platform: Platform)
    ensures
        supported_on(CodecType::Encoder(k), platform) == supported_on(CodecType::Decoder(decoder_of_family(k)), platform),
        supported_on(CodecType::Encoder(VideoEncoderType::X265), platform),
        supported_on(CodecType::Decoder(VideoDecoderType::HEVC), platform),
        supported_on(CodecType::Encoder(VideoEncoderType::VideoToolBox), Platform::MacOS),
        supported_on(CodecType::Decoder(VideoDecoderType::VideoToolBox), Platform::MacOS),
        platform == Platform::Windows || platform == Platform::Linux ==> !supported_on(
            CodecType::Decoder(VideoDecoderType::VideoToolBox),
            platform,
        ),
        supported_on(CodecType::Decoder(VideoDecoderType::Qsv), platform) <==> platform == Platform::Windows,
{
}

impl CodecType {
    /// Whether the codec can be used on `platform`: Windows has everything
    /// but VideoToolbox, Linux only the software codec, the Apple platforms
    /// the software codec and VideoToolbox.
    pub fn is_supported(&self, platform: Platform) -> (r: bool)
        ensures
            r == supported_on(*self, platform),
    {
        match self {
            CodecType::Encoder(kind) => match platform {
                Platform::Windows => *kind != VideoEncoderType::VideoToolBox,
                Platform::Linux => *kind == VideoEncoderType::X265,
                _ => *kind == VideoEncoderType::X265 || *kind == VideoEncoderType::VideoToolBox,
            },
            CodecType::Decoder(kind) => match platform {
                Platform::Windows => *kind != VideoDecoderType::VideoToolBox,
                Platform::Linux => *kind == VideoDecoderType::HEVC,
                _ => *kind == VideoDecoderType::HEVC || *kind == VideoDecoderType::VideoToolBox,
            },
        }
    }

    pub fn is_encoder(&self) -> (r: bool)
        ensures
            r == (*self is Encoder),
    {
        match self {
            CodecType::Encoder(_) => true,
            _ => false,
        }
    }

    pub fn is_qsv(self) -> (r: bool)
        ensures
            r == (self == CodecType::Encoder(VideoEncoderType::Qsv) || self == CodecType::Decoder(
                VideoDecoderType::Qsv,
            )),
    {
        match self {
            CodecType::Encoder(kind) => kind == VideoEncoderType::Qsv,
            CodecType::Decoder(kind) => kind == VideoDecoderType::Qsv,
        }
    }

    /// Every codec but the software HEVC ones runs on hardware.
    pub fn is_hardware(&self) -> (r: bool)
        ensures
            r == (*self != CodecType::Decoder(VideoDecoderType::HEVC) && *self != CodecType::Encoder(
                VideoEncoderType::X265,
            )),
    {
        match self {
            CodecType::Decoder(codec) => *codec != VideoDecoderType::HEVC,
            CodecType::Encoder(codec) => *codec != VideoEncoderType::X265,
        }
    }

    /// How to find the codec: the Direct3D 11 and VideoToolbox decoders
    /// are the generic HEVC decoder with a hardware context, every other
    /// codec is found by its name.
    pub fn find_av_codec(&self) -> (r: CodecLookup)
        ensures
            match *self {
                CodecType::Encoder(k) => r matches CodecLookup::ByName(n) && n@ == encoder_name(k),
                CodecType::Decoder(k) => if k == VideoDecoderType::D3D11 || k
                    == VideoDecoderType::VideoToolBox {
                    r is HevcDecoder
                } else {
                    r matches CodecLookup::ByName(n) && n@ == decoder_name(k)
                },
            },
    {
        match self {
            CodecType::Encoder(kind) => CodecLookup::ByName(kind.to_string()),
            CodecType::Decoder(kind) => {
                if *kind == VideoDecoderType::D3D11 || *kind == VideoDecoderType::VideoToolBox {
                    CodecLookup::HevcDecoder
                } else {
                    CodecLookup::ByName(kind.to_string())
                }
            },
        }
    }
}

/// Settings of a video encoder.
#[derive(Debug, Clone, Copy, PartialEq, Eq, Structural)]
pub struct VideoEncoderSettings {
    pub codec: VideoEncoderType,
    pub frame_rate: u8,
    pub width: u32,
    pub height: u32,
    /// The average bit rate.
    pub bit_rate: u64,
    /// The number of pictures in a group of pictures, or 0 for intra only.
    pub key_frame_interval: u32,
}

/// Settings of a video decoder.
#[derive(Debug, Clone, Copy, PartialEq, Eq, Structural)]
pub struct VideoDecoderSettings {
    pub codec: VideoDecoderType,
}

#[derive(Debug, Clone, Copy, PartialEq, Eq, Structural)]
pub struct AudioEncoderSettings {
    pub bit_rate: u64,
    pub sample_rate: u64,
}

/// The pixel format an encoder is fed.
#[derive(Debug, Clone, Copy, PartialEq, Eq, Structural)]
pub enum EncoderPixelFormat {
    Qsv,
    VideoToolbox,
    Nv12,
}

/// A value of a private codec option.
#[derive(Debug)]
pub enum CodecOptionValue {
    Int(i64),
    Text(String),
}

/// The rate control of an encoder.
#[derive(Debug, Clone, Copy, PartialEq, Eq, Structural)]
pub struct RateControl {
    pub bit_rate: i64,
    pub rc_max_rate: i64,
    pub rc_buffer_size: i32,
    pub rc_initial_buffer_occupancy: i32,
}

/// Everything an encoder context is set up with.
pub struct EncoderConfig {
    pub pix_fmt: EncoderPixelFormat,
    /// Slice threads, when the encoder is not QSV.
    pub thread_count: Option<i32>,
    pub rate: RateControl,
    pub bit_rate_tolerance: i32,
    /// Numerator and denominator of the frame rate.
    pub framerate: (i32, i32),
    /// Numerator and denominator of the time base, also the packet time base.
    pub time_base: (i32, i32),
    /// The number of pictures in a group of pictures, or 0 for intra only:
    /// the key frame interval of the settings.
    pub gop_size: i32,
    pub width: i32,
    pub height: i32,
    /// Private options, by name, in the order they are set.
    pub options: Vec<(String, CodecOptionValue)>,
}

/// Integer division rounding toward zero, as machine division does.
pub open spec fn div_toward_zero(a: int, b: int) -> int {
    if a >= 0 {
        a / b
    } else {
        -((-a) / b)
    }
}

/// The bit rate an encoder works with: QSV overshoots, so it gets half.
pub open spec fn effective_bit_rate(codec: VideoEncoderType, bit_rate: u64) -> i64 {
    if codec == VideoEncoderType::Qsv {
        div_toward_zero(bit_rate as i64 as int, 2) as i64
    } else {
        bit_rate as i64
    }
}

/// Only QSV has its bit rate cut, to exactly half; every other encoder's
/// rate control and tolerance carry the settings' bit rate unchanged.
pub proof fn lemma_bit_rate_halved_only_for_qsv(codec: VideoEncoderType, bit_rate: u64)
    requires
        bit_rate <= i64::MAX,
    ensures
        codec != VideoEncoderType::Qsv ==> effective_bit_rate(codec, bit_rate) == bit_rate,
        codec != VideoEncoderType::Qsv ==> rate_control(effective_bit_rate(codec, bit_rate)).bit_rate == bit_rate
            && rate_control(effective_bit_rate(codec, bit_rate)).rc_max_rate == bit_rate,
        codec != VideoEncoderType::Qsv ==> div_toward_zero(effective_bit_rate(codec, bit_rate) as int, 10) == bit_rate / 10,
        codec == VideoEncoderType::Qsv ==> effective_bit_rate(codec, bit_rate) == bit_rate / 2,
        effective_bit_rate(VideoEncoderType::Qsv, bit_rate) <= effective_bit_rate(codec, bit_rate),
        ({
            let b: int = if codec == VideoEncoderType::Qsv {
                (bit_rate / 2) as int
            } else {
                bit_rate as int
            };
            let rc = rate_control(effective_bit_rate(codec, bit_rate));
            &&& rc.bit_rate == b
            &&& rc.rc_max_rate == b
            &&& b <= i32::MAX ==> rc.rc_buffer_size == b && rc.rc_initial_buffer_occupancy == b * 3 / 4
            &&& div_toward_zero(effective_bit_rate(codec, bit_rate) as int, 10) == b / 10
        }),
{
}

/// The encoder settings that an encoder can be configured from: the rate
/// control arithmetic stays within `i64`.
pub open spec fn encoder_settings_fit(options: VideoEncoderSettings) -> bool {
    let b = effective_bit_rate(options.codec, options.bit_rate);
    i64::MIN <= b * 3 <= i64::MAX
}

fn option_int(name: &str, value: i64) -> (r: (String, CodecOptionValue))
    ensures
        r.0@ == name@,
        r.1 == CodecOptionValue::Int(value),
{
    (owned(name), CodecOptionValue::Int(value))
}

fn option_text(name: &str, value: &str) -> (r: (String, CodecOptionValue))
    ensures
        r.0@ == name@,
        r.1 matches CodecOptionValue::Text(v) && v@ == value@,
{
    (owned(name), CodecOptionValue::Text(owned(value)))
}

/// Whether a list of options is, in order, the given names with integer values.
pub open spec fn int_options(o: Seq<(String, CodecOptionValue)>, names: Seq<Seq<char>>, values: Seq<i64>) -> bool {
    &&& o.len() == names.len()
    &&& names.len() == values.len()
    &&& forall|i: int| 0 <= i < o.len() ==> (#[trigger] o[i]).0@ == names[i] && o[i].1 == CodecOptionValue::Int(values[i])
}

/// The configuration of a low-latency HEVC encoder.
pub fn encoder_config(options: VideoEncoderSettings) -> (c: EncoderConfig)
    requires
        encoder_settings_fit(options),
    ensures
        c.pix_fmt == (if options.codec == VideoEncoderType::Qsv {
            EncoderPixelFormat::Qsv
        } else if options.codec == VideoEncoderType::VideoToolBox {
            EncoderPixelFormat::VideoToolbox
        } else {
            EncoderPixelFormat::Nv12
        }),
        c.thread_count == (if options.codec == VideoEncoderType::Qsv {
            None::<i32>
        } else {
            Some(4i32)
        }),
        c.rate == rate_control(effective_bit_rate(options.codec, options.bit_rate)),
        c.bit_rate_tolerance == div_toward_zero(effective_bit_rate(options.codec, options.bit_rate) as int, 10) as i32,
        c.framerate == (options.frame_rate as i32, 1i32),
        c.time_base == (1i32, options.frame_rate as i32),
        c.gop_size == options.key_frame_interval as i32,
        c.width == options.width as i32,
        c.height == options.height as i32,
        options.codec == VideoEncoderType::X265 ==> {
            &&& c.options@.len() == 3
            &&& c.options@[0].0@ == "preset"@
            &&& (c.options@[0].1 matches CodecOptionValue::Text(v) && v@ == "superfast"@)
            &&& c.options@[1].0@ == "tune"@
            &&& (c.options@[1].1 matches CodecOptionValue::Text(v) && v@ == "zerolatency"@)
            &&& c.options@[2].0@ == "sc_threshold"@ && c.options@[2].1 == CodecOptionValue::Int(options.key_frame_interval as i64)
        },
        options.codec == VideoEncoderType::Qsv ==> int_options(
            c.options@,
            seq!["async_depth"@, "low_power"@, "vcm"@],
            seq![1i64, 1i64, 1i64],
        ),
        options.codec == VideoEncoderType::VideoToolBox ==> int_options(
            c.options@,
            seq!["realtime"@, "coder"@],
            seq![1i64, 1i64],
        ),
{
    let mut bit_rate: i64 = options.bit_rate as i64;
    if options.codec == VideoEncoderType::Qsv {
        bit_rate = bit_rate / 2;
    }
    let pix_fmt = if options.codec == VideoEncoderType::Qsv {
        EncoderPixelFormat::Qsv
    } else if options.codec == VideoEncoderType::VideoToolBox {
        EncoderPixelFormat::VideoToolbox
    } else {
        EncoderPixelFormat::Nv12
    };
    let thread_count = if options.codec == VideoEncoderType::Qsv {
        None
    } else {
        Some(4i32)
    };
    let frame_rate = options.frame_rate as i32;
    let mut opts: Vec<(String, CodecOptionValue)> = Vec::new();
    match options.codec {
        VideoEncoderType::X265 => {
            opts.push(option_text("preset", "superfast"));
            opts.push(option_text("tune", "zerolatency"));
            opts.push(option_int("sc_threshold", options.key_frame_interval as i64));
        },
        VideoEncoderType::Qsv => {
            opts.push(option_int("async_depth", 1));
            opts.push(option_int("low_power", 1));
            opts.push(option_int("vcm", 1));
        },
        VideoEncoderType::VideoToolBox => {
            opts.push(option_int("realtime", 1));
            opts.push(option_int("coder", 1));
        },
    }
    EncoderConfig {
        pix_fmt,
        thread_count,
        rate: set_bit_rate_signed(bit_rate),
        bit_rate_tolerance: (bit_rate / 10) as i32,
        framerate: (frame_rate, 1),
        time_base: (1, frame_rate),
        gop_size: options.key_frame_interval as i32,
        width: options.width as i32,
        height: options.height as i32,
        options: opts,
    }
}

/// The rate control for a bit rate: the same cap, a one second buffer and
/// a buffer three quarters full at start.
pub open spec fn rate_control(bit_rate: i64) -> RateControl {
    RateControl {
        bit_rate,
        rc_max_rate: bit_rate,
        rc_buffer_size: bit_rate as i32,
        rc_initial_buffer_occupancy: div_toward_zero(bit_rate * 3, 4) as i32,
    }
}

fn set_bit_rate_signed(bit_rate: i64) -> (r: RateControl)
    requires
        i64::MIN <= bit_rate * 3 <= i64::MAX,
    ensures
        r == rate_control(bit_rate),
{
    RateControl {
        bit_rate,
        rc_max_rate: bit_rate,
        rc_buffer_size: bit_rate as i32,
        rc_initial_buffer_occupancy: (bit_rate * 3 / 4) as i32,
    }
}

/// The rate control after the bit rate of a running encoder is changed.
pub fn set_bit_rate(bit_rate: u64) -> (r: RateControl)
    requires
        bit_rate * 3 <= u64::MAX,
    ensures
        r == (RateControl {
            bit_rate: bit_rate as i64,
            rc_max_rate: bit_rate as i64,
            rc_buffer_size: bit_rate as i32,
            rc_initial_buffer_occupancy: (bit_rate * 3 / 4) as i32,
        }),
{
    RateControl {
        bit_rate: bit_rate as i64,
        rc_max_rate: bit_rate as i64,
        rc_buffer_size: bit_rate as i32,
        rc_initial_buffer_occupancy: (bit_rate * 3 / 4) as i32,
    }
}

/// The private options of a decoder: QSV decodes one frame at a time.
pub fn decoder_options(settings: VideoDecoderSettings) -> (r: Vec<(String, CodecOptionValue)>)
    ensures
        settings.codec == VideoDecoderType::Qsv ==> int_options(r@, seq!["async_depth"@], seq![1i64]),
        settings.codec != VideoDecoderType::Qsv ==> r@.len() == 0,
{
    let mut r: Vec<(String, CodecOptionValue)> = Vec::new();
    if settings.codec == VideoDecoderType::Qsv {
        r.push(option_int("async_depth", 1));
    }
    r
}

/// Levels of the general-purpose logger.
#[derive(Debug, Clone, Copy, PartialEq, Eq, Structural)]
pub enum LogLevel {
    Error,
    Warn,
    Info,
    Debug,
    Trace,
}

/// Levels of the codec library's log callback.
#[derive(Debug, Clone, Copy, PartialEq, Eq, Structural)]
pub enum LoggerLevel {
    Panic,
    Fatal,
    Error,
    Warn,
    Info,
    Verbose,
    Debug,
    Trace,
}

impl LoggerLevel {
    /// The level a numeric code of the codec library stands for.
    pub fn from_code(code: i32) -> (r: Option<LoggerLevel>)
        ensures
            r == (if code == 0 {
                Some(LoggerLevel::Panic)
            } else if code == 8 {
                Some(LoggerLevel::Fatal)
            } else if code == 16 {
                Some(LoggerLevel::Error)
            } else if code == 24 {
                Some(LoggerLevel::Warn)
            } else if code == 32 {
                Some(LoggerLevel::Info)
            } else if code == 40 {
                Some(LoggerLevel::Verbose)
            } else if code == 48 {
                Some(LoggerLevel::Debug)
            } else if code == 56 {
                Some(LoggerLevel::Trace)
            } else {
                None::<LoggerLevel>
            }),
    {
        if code == 0 {
            Some(LoggerLevel::Panic)
        } else if code == 8 {
            Some(LoggerLevel::Fatal)
        } else if code == 16 {
            Some(LoggerLevel::Error)
        } else if code == 24 {
            Some(LoggerLevel::Warn)
        } else if code == 32 {
            Some(LoggerLevel::Info)
        } else if code == 40 {
            Some(LoggerLevel::Verbose)
        } else if code == 48 {
            Some(LoggerLevel::Debug)
        } else if code == 56 {
            Some(LoggerLevel::Trace)
        } else {
            None
        }
    }

    /// The general logger level a codec message is logged at.
    pub fn into_level(self) -> (r: LogLevel)
        ensures
            r == (match self {
                LoggerLevel::Panic | LoggerLevel::Fatal | LoggerLevel::Error => LogLevel::Error,
                LoggerLevel::Info | LoggerLevel::Verbose => LogLevel::Info,
                LoggerLevel::Warn => LogLevel::Warn,
                LoggerLevel::Debug => LogLevel::Debug,
                LoggerLevel::Trace => LogLevel::Trace,
            }),
    {
        match self {
            LoggerLevel::Panic | LoggerLevel::Fatal | LoggerLevel::Error => LogLevel::Error,
            LoggerLevel::Info | LoggerLevel::Verbose => LogLevel::Info,
            LoggerLevel::Warn => LogLevel::Warn,
            LoggerLevel::Debug => LogLevel::Debug,
            LoggerLevel::Trace => LogLevel::Trace,
        }
    }
}

/// Why a codec context could not be made.
#[derive(Debug)]
pub enum CreateVideoContextError {
    NotFoundAVCodec,
    AllocAVContextError,
    AllocAVHardwareDeviceContextError,
    MissingDirect3DDevice,
    /// The Direct3D device could not be made multithread protected, with the message.
    SetMultithreadProtectedError(String),
    InitAVHardwareDeviceContextError,
    InitQsvDeviceContextError,
    AllocAVHardwareFrameContextError,
    InitAVHardwareFrameContextError,
}

/// Why an encoder's frame could not be made.
#[derive(Debug)]
pub enum CreateVideoFrameError {
    AllocAVFrameError,
    AllocHardwareAVFrameBufferError,
    AllocAVFrameBufferError,
}

#[derive(Debug)]
pub enum VideoEncoderError {
    CodecError(CodecError),
    CreateVideoContextError(CreateVideoContextError),
    CreateVideoFrameError(CreateVideoFrameError),
    OpenAVCodecError,
    AllocAVPacketError,
    EncodeFrameError,
}

#[derive(Debug)]
pub enum VideoDecoderError {
    CodecError(CodecError),
    CreateVideoContextError(CreateVideoContextError),
    CreateVideoFrameError(CreateVideoFrameError),
    OpenAVCodecError,
    InitAVCodecParserContextError,
    AllocAVPacketError,
    ParsePacketError,
    SendPacketToAVCodecError,
    AllocAVFrameError,
}

/// The hardware device a codec context is given.
#[derive(Debug, Clone, Copy, PartialEq, Eq, Structural)]
pub enum HardwareDevice {
    /// A Direct3D 11 video device over the caller's Direct3D device.
    D3D11Va,
    /// A QSV device derived from a Direct3D 11 video device over the
    /// caller's Direct3D device, which is first made multithread protected.
    Qsv,
    /// A VideoToolbox device.
    VideoToolbox,
}

/// The device-side format of a pool of hardware frames.
#[derive(Debug, Clone, Copy, PartialEq, Eq, Structural)]
pub enum HardwareFrameFormat {
    Qsv,
    VideoToolbox,
}

/// A pool of hardware frames for an encoder, NV12 in memory.
#[derive(Debug, Clone, Copy, PartialEq, Eq, Structural)]
pub struct HardwareFramePool {
    pub format: HardwareFrameFormat,
    pub width: i32,
    pub height: i32,
    pub initial_pool_size: i32,
}

/// What a codec context is set up with besides the codec itself.
#[derive(Debug, Clone, Copy, PartialEq, Eq, Structural)]
pub struct HardwareContextPlan {
    pub device: Option<HardwareDevice>,
    pub frames: Option<HardwareFramePool>,
}

pub open spec fn is_hardware_codec(kind: CodecType) -> bool {
    kind != CodecType::Decoder(VideoDecoderType::HEVC) && kind != CodecType::Encoder(VideoEncoderType::X265)
}

pub open spec fn is_qsv_codec(kind: CodecType) -> bool {
    kind == CodecType::Encoder(VideoEncoderType::Qsv) || kind == CodecType::Decoder(VideoDecoderType::Qsv)
}

/// Whether the codec needs a pool of hardware frames: hardware encoders
/// do, on Windows only the QSV one, on Linux none.
pub open spec fn needs_frame_pool(kind: CodecType, platform: Platform) -> bool {
    &&& kind is Encoder
    &&& is_hardware_codec(kind)
    &&& platform != Platform::Linux
    &&& (platform == Platform::Windows ==> is_qsv_codec(kind))
}

pub open spec fn frame_pool(format: HardwareFrameFormat, size: Size) -> HardwareFramePool {
    HardwareFramePool { format, width: size.width as i32, height: size.height as i32, initial_pool_size: 5 }
}

/// The hardware set-up of a codec context: software codecs, and every
/// codec on Linux, get none; on Windows QSV codecs get a QSV device and,
/// for encoding, a QSV frame pool, the other hardware codecs a Direct3D 11
/// device; on macOS hardware codecs get a VideoToolbox device and, for
/// encoding, a VideoToolbox frame pool. Pools hold five frames of `size`.
pub open spec fn hardware_plan(kind: CodecType, platform: Platform, size: Option<Size>) -> HardwareContextPlan {
    if !is_hardware_codec(kind) || platform == Platform::Linux {
        HardwareContextPlan { device: None, frames: None }
    } else if platform == Platform::Windows {
        if is_qsv_codec(kind) {
            HardwareContextPlan {
                device: Some(HardwareDevice::Qsv),
                frames: if kind is Encoder {
                    Some(frame_pool(HardwareFrameFormat::Qsv, size->0))
                } else {
                    None
                },
            }
        } else {
            HardwareContextPlan { device: Some(HardwareDevice::D3D11Va), frames: None }
        }
    } else {
        HardwareContextPlan {
            device: Some(HardwareDevice::VideoToolbox),
            frames: if kind is Encoder {
                Some(frame_pool(HardwareFrameFormat::VideoToolbox, size->0))
            } else {
                None
            },
        }
    }
}

/// Plans the hardware set-up of a codec context. On Windows a hardware
/// codec works on the caller's Direct3D device and fails without one. The
/// codec library is built for Windows, macOS and Linux.
pub fn hardware_context_plan(kind: CodecType, platform: Platform, size: Option<Size>, has_direct3d: bool) -> (r: Result<
    HardwareContextPlan,
    CreateVideoContextError,
>)
    requires
        platform != Platform::Android,
        needs_frame_pool(kind, platform) ==> size is Some,
    ensures
        platform == Platform::Windows && is_hardware_codec(kind) && !has_direct3d ==> r matches Err(
            CreateVideoContextError::MissingDirect3DDevice,
        ),
        !(platform == Platform::Windows && is_hardware_codec(kind) && !has_direct3d) ==> r == Ok::<
            HardwareContextPlan,
            CreateVideoContextError,
        >(hardware_plan(kind, platform, size)),
{
    if !kind.is_hardware() || platform == Platform::Linux {
        return Ok(HardwareContextPlan { device: None, frames: None });
    }
    if platform == Platform::Windows {
        if !has_direct3d {
            return Err(CreateVideoContextError::MissingDirect3DDevice);
        }
        if kind.is_qsv() {
            let frames = if kind.is_encoder() {
                let s = size.unwrap();
                Some(
                    HardwareFramePool {
                        format: HardwareFrameFormat::Qsv,
                        width: s.width as i32,
                        height: s.height as i32,
                        initial_pool_size: 5,
                    },
                )
            } else {
                None
            };
            Ok(HardwareContextPlan { device: Some(HardwareDevice::Qsv), frames })
        } else {
            Ok(HardwareContextPlan { device: Some(HardwareDevice::D3D11Va), frames: None })
        }
    } else {
        let frames = if kind.is_encoder() {
            let s = size.unwrap();
            Some(
                HardwareFramePool {
                    format: HardwareFrameFormat::VideoToolbox,
                    width: s.width as i32,
                    height: s.height as i32,
                    initial_pool_size: 5,
                },
            )
        } else {
            None
        };
        Ok(HardwareContextPlan { device: Some(HardwareDevice::VideoToolbox), frames })
    }
}

/// The checks an encoder goes through before its context is opened: the
/// codec must be supported on the platform, then its hardware set-up
/// planned for pictures of the configured size.
pub fn encoder_context_plan(options: VideoEncoderSettings, platform: Platform, has_direct3d: bool) -> (r: Result<
    HardwareContextPlan,
    VideoEncoderError,
>)
    requires
        platform != Platform::Android,
    ensures
        ({
            let kind = CodecType::Encoder(options.codec);
            let size = Some(Size { width: options.width, height: options.height });
            if !supported_on(kind, platform) {
                r matches Err(VideoEncoderError::CodecError(CodecError::NotSupportCodec))
            } else if platform == Platform::Windows && is_hardware_codec(kind) && !has_direct3d {
                r matches Err(VideoEncoderError::CreateVideoContextError(CreateVideoContextError::MissingDirect3DDevice))
            } else {
                r == Ok::<HardwareContextPlan, VideoEncoderError>(hardware_plan(kind, platform, size))
            }
        }),
{
    let kind = CodecType::Encoder(options.codec);
    if !kind.is_supported(platform) {
        return Err(VideoEncoderError::CodecError(CodecError::NotSupportCodec));
    }
    match hardware_context_plan(kind, platform, Some(Size { width: options.width, height: options.height }), has_direct3d) {
        Ok(plan) => Ok(plan),
        Err(e) => Err(VideoEncoderError::CreateVideoContextError(e)),
    }
}

/// The checks a decoder goes through before its context is opened: the
/// codec must be supported on the platform, then its hardware set-up planned.
pub fn decoder_context_plan(settings: VideoDecoderSettings, platform: Platform, has_direct3d: bool) -> (r: Result<
    HardwareContextPlan,
    VideoDecoderError,
>)
    requires
        platform != Platform::Android,
    ensures
        ({
            let kind = CodecType::Decoder(settings.codec);
            if !supported_on(kind, platform) {
                r matches Err(VideoDecoderError::CodecError(CodecError::NotSupportCodec))
            } else if platform == Platform::Windows && is_hardware_codec(kind) && !has_direct3d {
                r matches Err(VideoDecoderError::CreateVideoContextError(CreateVideoContextError::MissingDirect3DDevice))
            } else {
                r == Ok::<HardwareContextPlan, VideoDecoderError>(hardware_plan(kind, platform, None))
            }
        }),
{
    let kind = CodecType::Decoder(settings.codec);
    if !kind.is_supported(platform) {
        return Err(VideoDecoderError::CodecError(CodecError::NotSupportCodec));
    }
    match hardware_context_plan(kind, platform, None, has_direct3d) {
        Ok(plan) => Ok(plan),
        Err(e) => Err(VideoDecoderError::CreateVideoContextError(e)),
    }
}

/// Where the next output of an encoder comes from.
#[derive(Debug, Clone, Copy, PartialEq, Eq, Structural)]
pub enum EncoderRead {
    /// The codec configuration (parameter sets), handed out first, once,
    /// with the packet flags [`CODEC_CONFIG_FLAGS`].
    Header,
    /// The next encoded packet, if the codec has one.
    Packet,
}

/// The packet flags under which the codec configuration is handed out.
pub const CODEC_CONFIG_FLAGS: i32 = 2;

/// One read: what is read, and whether the header has been handed out since.
pub open spec fn read_step(initialized: bool) -> (EncoderRead, bool) {
    if initialized {
        (EncoderRead::Packet, true)
    } else {
        (EncoderRead::Header, true)
    }
}

/// The output side of an encoder: the codec configuration comes first,
/// since in global header mode it is not part of the bitstream.
pub struct EncoderOutput {
    initialized: bool,
}

impl EncoderOutput {
    pub closed spec fn header_sent(self) -> bool {
        self.initialized
    }

    pub fn new() -> (o: EncoderOutput)
        ensures
            !o.header_sent(),
    {
        EncoderOutput { initialized: false }
    }

    pub fn next_read(&mut self) -> (r: EncoderRead)
        ensures
            (r, final(self).header_sent()) == read_step(old(self).header_sent()),
    {
        if self.initialized {
            EncoderRead::Packet
        } else {
            self.initialized = true;
            EncoderRead::Header
        }
    }
}

/// The header is handed out once: the first read of a new encoder gives
/// it, and every read after a read gives packets.
pub proof fn lemma_header_once(initialized: bool)
    ensures
        read_step(false).0 == EncoderRead::Header,
        read_step(read_step(initialized).1).0 == EncoderRead::Packet,
{
}

/// What an encoder does with a frame handed to it.
#[derive(Debug, Clone, Copy, PartialEq, Eq, Structural)]
pub enum FrameUpdate {
    /// The QSV surface of the encoder's frame is pointed at the texture.
    SetQsvSurface,
    /// A texture given to an encoder whose frame is not a QSV frame: nothing changes.
    Ignore,
    /// The pixel buffer becomes the hardware data of the encoder's frame.
    SetPixelBuffer,
    /// The planes are copied into the encoder's frame, once it is writable.
    CopyPlanes,
}

/// Which frames an encoder takes on a platform: Direct3D 11 textures on
/// Windows, pixel buffers on macOS, memory planes everywhere.
pub open spec fn frame_update_supported(platform: Platform, sub_format: VideoSubFormat) -> bool {
    match sub_format {
        VideoSubFormat::D3D11 => platform == Platform::Windows,
        VideoSubFormat::CvPixelBufferRef => platform == Platform::MacOS,
        VideoSubFormat::SW => true,
    }
}

/// How an encoder of `codec` takes in a frame of `sub_format`: only a QSV
/// encoder's frame can point at a texture.
pub fn frame_update(platform: Platform, codec: VideoEncoderType, sub_format: VideoSubFormat) -> (r: FrameUpdate)
    requires
        frame_update_supported(platform, sub_format),
    ensures
        r == (match sub_format {
            VideoSubFormat::D3D11 => if codec == VideoEncoderType::Qsv {
                FrameUpdate::SetQsvSurface
            } else {
                FrameUpdate::Ignore
            },
            VideoSubFormat::CvPixelBufferRef => FrameUpdate::SetPixelBuffer,
            VideoSubFormat::SW => FrameUpdate::CopyPlanes,
        }),
{
    match sub_format {
        VideoSubFormat::D3D11 => {
            if codec == VideoEncoderType::Qsv {
                FrameUpdate::SetQsvSurface
            } else {
                FrameUpdate::Ignore
            }
        },
        VideoSubFormat::CvPixelBufferRef => FrameUpdate::SetPixelBuffer,
        VideoSubFormat::SW => FrameUpdate::CopyPlanes,
    }
}

} // verus!
