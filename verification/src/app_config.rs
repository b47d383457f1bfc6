use vstd::prelude::*;

use crate::codec::{is_hardware_codec, supported_on, CodecType, VideoDecoderType, VideoEncoderType};
use crate::net::SocketAddress;
use crate::paths::{home_device_name, normalize_path, normalized, platform_word};
use crate::platform::Platform;
use crate::text::{last_component, owned, replace_all};

verus! {

/// The settings the application starts with.
pub struct AppConfig {
    pub cache_path: String,
    pub uri: String,
    pub cheme_path: String,
    pub subprocess_path: String,
    pub username: String,
}

impl AppConfig {
    pub fn default_uri() -> (r: String)
        ensures
            r@ == "webview://index.html"@,
    {
        owned("webview://index.html")
    }

    /// The web resource directory relative to the executable's directory.
    pub fn cheme_child(platform: Platform) -> (r: String)
        ensures
            r@ == (if platform == Platform::MacOS {
                "../Resources/webview"@
            } else {
                "webview"@
            }),
    {
        if platform == Platform::MacOS {
            owned("../Resources/webview")
        } else {
            owned("webview")
        }
    }

    /// The web resource directory, from its canonical path.
    pub fn default_cheme_path(canonical: &str) -> (r: String)
        ensures
            r@ == normalized(canonical@),
    {
        normalize_path(canonical)
    }

    /// The helper executable relative to the executable's directory; only
    /// macOS and Windows have one.
    pub fn subprocess_child(platform: Platform) -> (r: Option<String>)
        ensures
            platform == Platform::MacOS ==> (r matches Some(c) && c@
                == "../Frameworks/Hylarana Helper.app/Contents/MacOS/Hylarana Helper"@),
            platform == Platform::Windows ==> (r matches Some(c) && c@ == "hylarana-app-helper.exe"@),
            platform != Platform::MacOS && platform != Platform::Windows ==> r is None,
    {
        match platform {
            Platform::MacOS => Some(owned("../Frameworks/Hylarana Helper.app/Contents/MacOS/Hylarana Helper")),
            Platform::Windows => Some(owned("hylarana-app-helper.exe")),
            _ => None,
        }
    }

    /// The helper executable, from its canonical path.
    pub fn default_subprocess_path(canonical: &str) -> (r: String)
        ensures
            r@ == normalized(canonical@),
    {
        normalize_path(canonical)
    }

    /// The device name: the home directory's last component and the
    /// platform's word.
    pub fn default_username(home: &str, platform: Platform) -> (r: String)
        ensures
            r@ == last_component(replace_all(home@, "\\"@, "/"@), '/') + "-"@ + platform_word(platform),
    {
        home_device_name(home, platform)
    }
}

pub struct System {
    pub name: String,
    pub language: String,
}

impl System {
    /// English, and the configured user name.
    pub fn default(username: &str) -> (s: System)
        ensures
            s.name@ == username@,
            s.language@ == "english"@,
    {
        System { language: owned("english"), name: owned(username) }
    }
}

/// The address the application binds by default: 0.0.0.0:43165.
pub open spec fn default_bind() -> SocketAddress {
    SocketAddress { ip: crate::net::IpAddress::V4(0), port: 43165 }
}

#[derive(Debug, Clone, Copy, PartialEq, Eq, Structural)]
pub struct Codec {
    pub encoder: VideoEncoderType,
    pub decoder: VideoDecoderType,
}

impl Codec {
    /// VideoToolbox on macOS, the software codec elsewhere.
    pub fn default(platform: Platform) -> (c: Codec)
        ensures
            c == (if platform == Platform::MacOS {
                Codec { encoder: VideoEncoderType::VideoToolBox, decoder: VideoDecoderType::VideoToolBox }
            } else {
                Codec { encoder: VideoEncoderType::X265, decoder: VideoDecoderType::HEVC }
            }),
            c == default_codec(platform),
    {
        if platform == Platform::MacOS {
            Codec { encoder: VideoEncoderType::VideoToolBox, decoder: VideoDecoderType::VideoToolBox }
        } else {
            Codec { encoder: VideoEncoderType::X265, decoder: VideoDecoderType::HEVC }
        }
    }
}

/// The codecs a platform starts with.
pub open spec fn default_codec(platform: Platform) -> Codec {
    if platform == Platform::MacOS {
        Codec { encoder: VideoEncoderType::VideoToolBox, decoder: VideoDecoderType::VideoToolBox }
    } else {
        Codec { encoder: VideoEncoderType::X265, decoder: VideoDecoderType::HEVC }
    }
}

/// The codecs a platform starts with are ones it supports, encoder and
/// decoder alike, and on macOS they are the hardware ones.
pub proof fn lemma_default_codecs_supported(platform: Platform)
    ensures
        supported_on(CodecType::Encoder(default_codec(platform).encoder), platform),
        supported_on(CodecType::Decoder(default_codec(platform).decoder), platform),
        platform == Platform::MacOS ==> is_hardware_codec(CodecType::Encoder(default_codec(platform).encoder))
            && is_hardware_codec(CodecType::Decoder(default_codec(platform).decoder)),
{
}

#[derive(Debug, Clone, Copy, PartialEq, Eq, Structural)]
pub struct Video {
    pub width: u32,
    pub height: u32,
    pub frame_rate: u8,
    pub bit_rate: usize,
    pub key_frame_interval: u8,
}

impl Default for Video {
    fn default() -> (v: Video)
        ensures
            v == (Video { width: 1280, height: 720, frame_rate: 30, bit_rate: 5000000, key_frame_interval: 30 }),
    {
        Video { width: 1280, height: 720, frame_rate: 30, bit_rate: 5000000, key_frame_interval: 30 }
    }
}

#[derive(Debug, Clone, Copy, PartialEq, Eq, Structural)]
pub struct Audio {
    pub sample_rate: u32,
    pub bit_rate: usize,
}

impl Default for Audio {
    fn default() -> (a: Audio)
        ensures
            a == (Audio { sample_rate: 48000, bit_rate: 64000 }),
    {
        Audio { sample_rate: 48000, bit_rate: 64000 }
    }
}

/// The bind address of the network settings.
pub fn default_bind_address() -> (a: SocketAddress)
    ensures
        a == default_bind(),
{
    SocketAddress { ip: crate::net::IpAddress::V4(0), port: 43165 }
}

/// The directories and files the application keeps below its root
/// directory: caches, the settings file among them, and the web resources.
pub struct EnvPaths {
    pub cache_path: String,
    pub settings_path: String,
    pub scheme_path: String,
}

pub fn env_paths(root: &str) -> (p: EnvPaths)
    ensures
        p.cache_path@ == root@ + "/caches"@,
        p.settings_path@ == root@ + "/caches/settings"@,
        p.scheme_path@ == root@ + "/resources"@,
{
    let mut cache_path = owned(root);
    cache_path.append("/caches");
    let mut settings_path = owned(root);
    settings_path.append("/caches/settings");
    let mut scheme_path = owned(root);
    scheme_path.append("/resources");
    EnvPaths { cache_path, settings_path, scheme_path }
}

/// The character of a decimal digit.
pub open spec fn digit_char(d: nat) -> char {
    if d == 0 {
        '0'
    } else if d == 1 {
        '1'
    } else if d == 2 {
        '2'
    } else if d == 3 {
        '3'
    } else if d == 4 {
        '4'
    } else if d == 5 {
        '5'
    } else if d == 6 {
        '6'
    } else if d == 7 {
        '7'
    } else if d == 8 {
        '8'
    } else {
        '9'
    }
}

/// The decimal digits of `n`, most significant first, without leading zeros.
pub open spec fn decimal(n: nat) -> Seq<char>
    decreases n,
{
    if n < 10 {
        seq![digit_char(n)]
    } else {
        decimal(n / 10).push(digit_char(n % 10))
    }
}

fn digit_string(d: u64) -> (r: String)
    requires
        d < 10,
    ensures
        r@ == seq![digit_char(d as nat)],
{
    proof {
        reveal_strlit("0");
        reveal_strlit("1");
        reveal_strlit("2");
        reveal_strlit("3");
        reveal_strlit("4");
        reveal_strlit("5");
        reveal_strlit("6");
        reveal_strlit("7");
        reveal_strlit("8");
        reveal_strlit("9");
    }
    let r = if d == 0 {
        owned("0")
    } else if d == 1 {
        owned("1")
    } else if d == 2 {
        owned("2")
    } else if d == 3 {
        owned("3")
    } else if d == 4 {
        owned("4")
    } else if d == 5 {
        owned("5")
    } else if d == 6 {
        owned("6")
    } else if d == 7 {
        owned("7")
    } else if d == 8 {
        owned("8")
    } else {
        owned("9")
    };
    assert(r@ =~= seq![digit_char(d as nat)]);
    r
}

/// The decimal text of a number.
pub fn decimal_string(n: u64) -> (r: String)
    ensures
        r@ == decimal(n as nat),
    decreases n,
{
    if n < 10 {
        digit_string(n)
    } else {
        let mut r = decimal_string(n / 10);
        let last = digit_string(n % 10);
        r.append(last.as_str());
        assert(r@ =~= decimal((n / 10) as nat).push(digit_char((n % 10) as nat)));
        r
    }
}

/// The settings the application keeps between runs.
pub struct Settings {
    pub name: String,
}

impl Settings {
    /// The settings made on the first start: the device is named by the
    /// number of seconds since the Unix epoch at that time.
    pub fn first_start(unix_seconds: u64) -> (s: Settings)
        ensures
            s.name@ == decimal(unix_seconds as nat),
    {
        Settings { name: decimal_string(unix_seconds) }
    }
}

} // verus!
