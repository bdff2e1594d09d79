//! The log destination named on the command line.
//!
//! A handful of keywords select the console or no log at all; anything
//! else is a path, taken as a file or a directory according to what the
//! file system says about it. Looking at the file system, like wiring the
//! log subsystem itself, is the host program's business: it hands the
//! answer in as a `PathKind`.

use vstd::prelude::*;

use crate::text::lower;
use crate::text::to_ascii_lower;

verus! {

/// Where the log goes.
#[derive(Debug, Clone, Default)]
pub enum LogConfig {
    /// Pick a writable directory, falling back to the console.
    #[default]
    Default,
    /// Do not log at all.
    Off,
    /// Rotate log files inside this directory.
    Directory(String),
    /// Append to this one file.
    File(String),
    /// Log to standard output.
    StdOut,
    /// Log to standard error.
    StdErr,
}

/// What the file system says about a path.
#[derive(Clone, Copy, Debug, PartialEq, Eq, Structural)]
pub enum PathKind {
    /// The path names an existing file.
    File,
    /// The path names an existing directory.
    Directory,
    /// The path names nothing yet.
    Missing,
}

/// The canonical text of a log destination; paths are quoted.
pub open spec fn log_config_text(c: &LogConfig) -> Seq<char> {
    match *c {
        LogConfig::Default => Seq::empty(),
        LogConfig::Off => "none"@,
        LogConfig::StdOut => "stdout"@,
        LogConfig::StdErr => "stderr"@,
        LogConfig::Directory(x) => "\""@ + x@ + "\""@,
        LogConfig::File(x) => "\""@ + x@ + "\""@,
    }
}

/// Whether a lowered text is one of the reserved log keywords.
pub open spec fn log_keyword(low: Seq<char>) -> bool {
    low.len() == 0 || low == "none"@ || low == "stdout"@ || low == "stderr"@
}

impl LogConfig {
    /// Reads a destination from its text, without regard to ASCII case.
    /// A text that is no keyword is a path, lowered like the keywords are:
    /// an existing directory is a rotation directory, anything else one
    /// log file.
    pub fn classify(s: &str, kind_of_path: PathKind) -> (r: LogConfig)
        ensures
            match r {
                LogConfig::Default => lower(s@).len() == 0,
                LogConfig::Off => lower(s@) == "none"@,
                LogConfig::StdOut => lower(s@) == "stdout"@,
                LogConfig::StdErr => lower(s@) == "stderr"@,
                LogConfig::Directory(p) => !log_keyword(lower(s@)) && p@ == lower(s@)
                    && kind_of_path == PathKind::Directory,
                LogConfig::File(p) => !log_keyword(lower(s@)) && p@ == lower(s@) && (kind_of_path
                    == PathKind::File || kind_of_path == PathKind::Missing),
            },
    {
        let low = to_ascii_lower(s);
        if low.as_str().is_empty() {
            LogConfig::Default
        } else if low == String::from_str("none") {
            LogConfig::Off
        } else if low == String::from_str("stdout") {
            LogConfig::StdOut
        } else if low == String::from_str("stderr") {
            LogConfig::StdErr
        } else {
            match kind_of_path {
                PathKind::Directory => LogConfig::Directory(low),
                PathKind::File => LogConfig::File(low),
                PathKind::Missing => LogConfig::File(low),
            }
        }
    }

    /// The canonical text of the destination; paths come out quoted.
    pub fn as_text(&self) -> (r: String)
        ensures
            r@ == log_config_text(self),
    {
        match self {
            LogConfig::Default => String::new(),
            LogConfig::Off => String::from_str("none"),
            LogConfig::StdOut => String::from_str("stdout"),
            LogConfig::StdErr => String::from_str("stderr"),
            LogConfig::Directory(x) => String::from_str("\"").concat(x.as_str()).concat("\""),
            LogConfig::File(x) => String::from_str("\"").concat(x.as_str()).concat("\""),
        }
    }
}

} // verus!
