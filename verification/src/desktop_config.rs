use vstd::prelude::*;

use crate::codec::{VideoDecoderType, VideoEncoderType};
use crate::net::SocketAddress;
use crate::paths::{default_username, normalize_path, normalized, username_choice};
use crate::platform::Platform;
use crate::text::{last_component, last_piece, owned, trimmed};

verus! {

/// The settings the desktop application starts with.
pub struct AppConfig {
    pub cache_path: String,
    pub uri: String,
    pub cheme_path: String,
    pub subprocess_path: String,
    pub username: String,
}

/// The first candidate that resolved, normalized.
pub open spec fn first_resolved(resolved: Seq<Option<String>>) -> Option<Seq<char>>
    decreases resolved.len(),
{
    if resolved.len() == 0 {
        None
    } else {
        match resolved[0] {
            Some(p) => Some(normalized(p@)),
            None => first_resolved(resolved.skip(1)),
        }
    }
}

/// Normalizes the first of the candidate paths that exists; `resolved`
/// holds, for each candidate, its canonical text when it exists.
pub fn first_existing_path(resolved: &Vec<Option<String>>) -> (r: Option<String>)
    ensures
        match r {
            Some(p) => first_resolved(resolved@) == Some(p@),
            None => first_resolved(resolved@) is None,
        },
{
    let mut i: usize = 0;
    assert(resolved@.skip(0) =~= resolved@);
    while i < resolved.len()
        invariant
            i <= resolved@.len(),
            first_resolved(resolved@.skip(i as int)) == first_resolved(resolved@),
        decreases resolved@.len() - i,
    {
        let ghost rest = resolved@.skip(i as int);
        assert(rest[0] == resolved@[i as int]);
        assert(rest.skip(1) =~= resolved@.skip(i + 1));
        match &resolved[i] {
            Some(p) => {
                return Some(normalize_path(p.as_str()));
            },
            None => {},
        }
        i = i + 1;
    }
    assert(resolved@.skip(i as int).len() == 0);
    None
}

impl AppConfig {
    pub fn default_uri() -> (r: String)
        ensures
            r@ == "webview://localhost/index.html"@,
    {
        owned("webview://localhost/index.html")
    }

    /// Where the web resources may be, relative to the executable's
    /// directory, in order of preference.
    pub fn cheme_path_candidates(platform: Platform) -> (r: Vec<String>)
        ensures
            platform == Platform::MacOS ==> r@.len() == 1 && r@[0]@ == "../Resources/webview"@,
            platform != Platform::MacOS ==> r@.len() == 2 && r@[0]@ == "webview"@ && r@[1]@ == "../app/webview"@,
    {
        let mut r: Vec<String> = Vec::new();
        if platform == Platform::MacOS {
            r.push(owned("../Resources/webview"));
        } else {
            r.push(owned("webview"));
            r.push(owned("../app/webview"));
        }
        r
    }

    /// The web resource directory: the first candidate that exists, of
    /// which there must be one.
    pub fn default_cheme_path(resolved: &Vec<Option<String>>) -> (r: String)
        requires
            first_resolved(resolved@) is Some,
        ensures
            first_resolved(resolved@) == Some(r@),
    {
        first_existing_path(resolved).unwrap()
    }

    /// The helper executable, relative to the executable's directory; only
    /// macOS and Windows have one.
    pub fn subprocess_child(platform: Platform) -> (r: Option<String>)
        ensures
            platform == Platform::MacOS ==> (r matches Some(c) && c@
                == "../Frameworks/Hylarana Helper.app/Contents/MacOS/Hylarana Helper"@),
            platform == Platform::Windows ==> (r matches Some(c) && c@ == "hylarana-app-helper.exe"@),
            platform != Platform::MacOS && platform != Platform::Windows ==> r is None,
    {
        match platform {
            Platform::MacOS => Some(owned("../Frameworks/Hylarana Helper.app/Contents/MacOS/Hylarana Helper")),
            Platform::Windows => Some(owned("hylarana-app-helper.exe")),
            _ => None,
        }
    }

    /// The helper executable's path, from its canonical path; the helper
    /// must exist.
    pub fn default_subprocess_path(canonical: &str) -> (r: String)
        ensures
            r@ == normalized(canonical@),
    {
        normalize_path(canonical)
    }

    /// The cache directory, from the local data directory joined with the
    /// application's name.
    pub fn default_cache_path(joined: &str) -> (r: String)
        ensures
            r@ == normalized(joined@),
    {
        normalize_path(joined)
    }

    /// The user name, from the user name environment variables and the
    /// home directory's name.
    pub fn default_username(env_values: &Vec<Option<String>>, home_name: &Option<String>) -> (r: String)
        ensures
            r@ == username_choice(
                env_values@.map_values(|o: Option<String>| match o {
                    Some(s) => Some(trimmed(s@)),
                    None => None,
                }),
                match home_name {
                    Some(h) => Some(h@),
                    None => None,
                },
            ),
    {
        default_username(env_values, home_name)
    }
}

#[derive(Debug)]
pub struct System {
    pub name: String,
    pub language: String,
}

impl System {
    /// English, and the last component of the home directory as the name.
    pub fn default(home: &str) -> (s: System)
        ensures
            s.name@ == last_component(home@, '/'),
            s.language@ == "english"@,
    {
        System { language: owned("english"), name: last_piece(home, '/') }
    }
}

#[derive(Debug, Clone, Copy, PartialEq, Eq, Structural)]
pub struct Network {
    /// IPv4 address of the interface, as an integer.
    pub interface: u32,
    /// IPv4 multicast group, as an integer.
    pub multicast: u32,
    pub server: Option<SocketAddress>,
    pub port: u32,
    pub mtu: u32,
}

/// 239.0.0.1 as an integer.
pub const DEFAULT_MULTICAST: u32 = 0xEF000001;

impl Default for Network {
    fn default() -> (n: Network)
        ensures
            n == (Network { interface: 0, multicast: DEFAULT_MULTICAST, server: None, port: 8080, mtu: 1400 }),
    {
        Network { interface: 0, multicast: DEFAULT_MULTICAST, server: None, port: 8080, mtu: 1400 }
    }
}

#[derive(Debug, Clone, Copy, PartialEq, Eq, Structural)]
pub struct Codec {
    pub encoder: VideoEncoderType,
    pub decoder: VideoDecoderType,
}

impl Codec {
    /// VideoToolbox on macOS, the software codec elsewhere.
    pub fn default(platform: Platform) -> (c: Codec)
        ensures
            c == (if platform == Platform::MacOS {
                Codec { encoder: VideoEncoderType::VideoToolBox, decoder: VideoDecoderType::VideoToolBox }
            } else {
                Codec { encoder: VideoEncoderType::X265, decoder: VideoDecoderType::HEVC }
            }),
    {
        if platform == Platform::MacOS {
            Codec { encoder: VideoEncoderType::VideoToolBox, decoder: VideoDecoderType::VideoToolBox }
        } else {
            Codec { encoder: VideoEncoderType::X265, decoder: VideoDecoderType::HEVC }
        }
    }
}

#[derive(Debug, Clone, Copy, PartialEq, Eq, Structural)]
pub struct Video {
    pub width: u32,
    pub height: u32,
    pub frame_rate: u8,
    pub bit_rate: usize,
    pub key_frame_interval: u8,
}

impl Default for Video {
    fn default() -> (v: Video)
        ensures
            v == (Video { width: 1280, height: 720, frame_rate: 30, bit_rate: 10000000, key_frame_interval: 30 }),
    {
        Video { width: 1280, height: 720, frame_rate: 30, bit_rate: 10000000, key_frame_interval: 30 }
    }
}

#[derive(Debug, Clone, Copy, PartialEq, Eq, Structural)]
pub struct Audio {
    pub sample_rate: u32,
    pub bit_rate: usize,
}

impl Default for Audio {
    fn default() -> (a: Audio)
        ensures
            a == (Audio { sample_rate: 48000, bit_rate: 64000 }),
    {
        Audio { sample_rate: 48000, bit_rate: 64000 }
    }
}

pub struct Configure {
    pub network: Network,
    pub system: System,
    pub codec: Codec,
    pub video: Video,
    pub audio: Audio,
}

impl Configure {
    /// Every part at its default.
    pub fn default(home: &str, platform: Platform) -> (c: Configure)
        ensures
            c.system.name@ == last_component(home@, '/'),
            c.system.language@ == "english"@,
            c.network == (Network { interface: 0, multicast: DEFAULT_MULTICAST, server: None, port: 8080, mtu: 1400 }),
            c.codec == (if platform == Platform::MacOS {
                Codec { encoder: VideoEncoderType::VideoToolBox, decoder: VideoDecoderType::VideoToolBox }
            } else {
                Codec { encoder: VideoEncoderType::X265, decoder: VideoDecoderType::HEVC }
            }),
            c.video == (Video { width: 1280, height: 720, frame_rate: 30, bit_rate: 10000000, key_frame_interval: 30 }),
            c.audio == (Audio { sample_rate: 48000, bit_rate: 64000 }),
    {
        Configure {
            network: Network::default(),
            system: System::default(home),
            codec: Codec::default(platform),
            video: Video::default(),
            audio: Audio::default(),
        }
    }
}

} // verus!
