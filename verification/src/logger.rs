use vstd::prelude::*;

use crate::codec::LogLevel;
use crate::text::owned;

verus! {

#[derive(Debug)]
pub enum LoggerInitError {
    /// A logger was already installed, with the message.
    LogError(String),
    /// The log directory could not be made, with the message.
    IoError(String),
}

/// Filters of the general-purpose logger.
#[derive(Debug, Clone, Copy, PartialEq, Eq, Structural)]
pub enum LevelFilter {
    Off,
    Error,
    Warn,
    Info,
    Debug,
    Trace,
}

/// The modules whose logging is quieter than the rest, with their
/// filters: the graphics library warns, its DXGI exception hook only errs.
pub open spec fn is_module_overrides(r: Seq<(String, LevelFilter)>) -> bool {
    &&& r.len() == 4
    &&& r[0].0@ == "wgpu"@ && r[0].1 == LevelFilter::Warn
    &&& r[1].0@ == "wgpu_core"@ && r[1].1 == LevelFilter::Warn
    &&& r[2].0@ == "wgpu_hal"@ && r[2].1 == LevelFilter::Warn
    &&& r[3].0@ == "wgpu_hal::auxil::dxgi::exception"@ && r[3].1 == LevelFilter::Error
}

/// The modules whose logging is quieter than the rest, with their filters.
pub fn module_level_overrides() -> (r: Vec<(String, LevelFilter)>)
    ensures
        is_module_overrides(r@),
{
    let mut r: Vec<(String, LevelFilter)> = Vec::new();
    r.push((owned("wgpu"), LevelFilter::Warn));
    r.push((owned("wgpu_core"), LevelFilter::Warn));
    r.push((owned("wgpu_hal"), LevelFilter::Warn));
    r.push((owned("wgpu_hal::auxil::dxgi::exception"), LevelFilter::Error));
    r
}

/// How the general-purpose logger is set up.
pub struct LoggerConfig {
    pub level: LevelFilter,
    /// Modules logged at their own filter.
    pub overrides: Vec<(String, LevelFilter)>,
    /// The directory of the daily log files, and the date pattern their
    /// names are made from, when records are also kept in files.
    pub files: Option<(String, String)>,
}

/// The logger's set-up: records at `level` and above go to standard
/// output, and, when a directory is given, to one file per day in it.
pub fn logger_config(level: LevelFilter, path: Option<&str>) -> (c: LoggerConfig)
    ensures
        c.level == level,
        is_module_overrides(c.overrides@),
        match path {
            Some(p) => c.files matches Some(f) && f.0@ == p@ && f.1@ == "%Y-%m-%d-hylarana.log"@,
            None => c.files is None,
        },
{
    let files = match path {
        Some(p) => Some((owned(p), owned("%Y-%m-%d-hylarana.log"))),
        None => None,
    };
    LoggerConfig { level, overrides: module_level_overrides(), files }
}

/// The name a level is printed under.
pub open spec fn level_name(level: LogLevel) -> Seq<char> {
    match level {
        LogLevel::Error => "ERROR"@,
        LogLevel::Warn => "WARN"@,
        LogLevel::Info => "INFO"@,
        LogLevel::Debug => "DEBUG"@,
        LogLevel::Trace => "TRACE"@,
    }
}

/// A line of the general-purpose log: the level in brackets, the source
/// file or `*` when unknown, and the message.
pub fn record_line(level: LogLevel, file: Option<&str>, message: &str) -> (r: String)
    ensures
        r@ == "["@ + level_name(level) + "] - ("@ + (match file {
            Some(f) => f@,
            None => "*"@,
        }) + ") - "@ + message@,
{
    let mut r = owned("[");
    match level {
        LogLevel::Error => r.append("ERROR"),
        LogLevel::Warn => r.append("WARN"),
        LogLevel::Info => r.append("INFO"),
        LogLevel::Debug => r.append("DEBUG"),
        LogLevel::Trace => r.append("TRACE"),
    }
    r.append("] - (");
    match file {
        Some(f) => r.append(f),
        None => r.append("*"),
    }
    r.append(") - ");
    r.append(message);
    r
}

/// Priorities of the Android log.
#[derive(Debug, Clone, Copy, PartialEq, Eq, Structural)]
pub enum AndroidLogLevel {
    Verbose,
    Debug,
    Info,
    Warn,
    Error,
}

impl AndroidLogLevel {
    pub fn from_level(level: LogLevel) -> (r: AndroidLogLevel)
        ensures
            r == (match level {
                LogLevel::Trace => AndroidLogLevel::Verbose,
                LogLevel::Debug => AndroidLogLevel::Debug,
                LogLevel::Info => AndroidLogLevel::Info,
                LogLevel::Warn => AndroidLogLevel::Warn,
                LogLevel::Error => AndroidLogLevel::Error,
            }),
    {
        match level {
            LogLevel::Trace => AndroidLogLevel::Verbose,
            LogLevel::Debug => AndroidLogLevel::Debug,
            LogLevel::Info => AndroidLogLevel::Info,
            LogLevel::Warn => AndroidLogLevel::Warn,
            LogLevel::Error => AndroidLogLevel::Error,
        }
    }

    /// The numeric priority the Android log takes: verbose is 2, each
    /// level one more.
    pub fn priority(self) -> (r: i32)
        ensures
            r == (match self {
                AndroidLogLevel::Verbose => 2i32,
                AndroidLogLevel::Debug => 3i32,
                AndroidLogLevel::Info => 4i32,
                AndroidLogLevel::Warn => 5i32,
                AndroidLogLevel::Error => 6i32,
            }),
    {
        match self {
            AndroidLogLevel::Verbose => 2,
            AndroidLogLevel::Debug => 3,
            AndroidLogLevel::Info => 4,
            AndroidLogLevel::Warn => 5,
            AndroidLogLevel::Error => 6,
        }
    }
}

/// Writes log records to the Android log under a package's tag.
pub struct AndroidLogger {
    package: String,
}

impl AndroidLogger {
    pub closed spec fn package_view(self) -> Seq<char> {
        self.package@
    }

    pub fn new(package: &str) -> (l: AndroidLogger)
        ensures
            l.package_view() == package@,
    {
        AndroidLogger { package: owned(package) }
    }

    /// The tag: the package name, terminated by a NUL character.
    pub fn tag(&self) -> (r: String)
        ensures
            r@ == self.package_view() + seq!['\0'],
    {
        let mut r = self.package.clone();
        r.append("\0");
        proof {
            reveal_strlit("\0");
        }
        r
    }

    /// The text of a record: its source file, or `*` when unknown, the
    /// message, and a terminating NUL.
    pub fn text(file: Option<&str>, message: &str) -> (r: String)
        ensures
            r@ == "("@ + (match file {
                Some(f) => f@,
                None => "*"@,
            }) + ") - "@ + message@ + seq!['\0'],
    {
        let mut r = owned("(");
        match file {
            Some(f) => r.append(f),
            None => r.append("*"),
        }
        r.append(") - ");
        r.append(message);
        r.append("\0");
        proof {
            reveal_strlit("\0");
        }
        r
    }

    /// What one record becomes in the Android log: the priority of its
    /// level, the tag and the text, in the order the log write takes them.
    pub fn entry(&self, level: LogLevel, file: Option<&str>, message: &str) -> (r: (i32, String, String))
        ensures
            r.0 == (match level {
                LogLevel::Trace => 2i32,
                LogLevel::Debug => 3i32,
                LogLevel::Info => 4i32,
                LogLevel::Warn => 5i32,
                LogLevel::Error => 6i32,
            }),
            r.1@ == self.package_view() + seq!['\0'],
            r.2@ == "("@ + (match file {
                Some(f) => f@,
                None => "*"@,
            }) + ") - "@ + message@ + seq!['\0'],
    {
        let priority = AndroidLogLevel::from_level(level).priority();
        (priority, self.tag(), AndroidLogger::text(file, message))
    }
}

/// The text of a codec library message: without its trailing newline.
pub open spec fn without_newline(s: Seq<char>) -> Seq<char> {
    if s.len() > 0 && s.last() == '\n' {
        s.drop_last()
    } else {
        s
    }
}

pub fn strip_newline(message: &str) -> (r: String)
    ensures
        r@ == without_newline(message@),
{
    let n = message.unicode_len();
    if n > 0 && message.get_char(n - 1) == '\n' {
        let s = message.substring_char(0, n - 1);
        assert(s@ =~= message@.drop_last());
        owned(s)
    } else {
        owned(message)
    }
}

} // verus!
