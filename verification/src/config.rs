//! The tailer's options, their defaults, and where its configuration file
//! is looked for.

use crate::text::{same_text, text_view};
use vstd::prelude::*;
use vstd::string::StringExecFns;

verus! {

/// Where output goes unless configured otherwise.
pub const STDOUT_DEV: &'static str = "/dev/stdout";

/// How many levels below a root are walked unless configured otherwise.
pub const MAX_DIR_DEPTH: usize = 5;

/// How many directories a walk keeps open unless configured otherwise.
pub const MAX_OPEN_FILES: usize = 1023;

/// How many bytes of a newly observed file are shown unless configured
/// otherwise.
pub const TAIL_BYTES: u64 = 2048;

/// The tailer's options. An option that is not set has its default.
#[derive(Clone, Debug)]
pub struct Config {
    /// Where output goes.
    pub output: Option<String>,
    /// The name of the severity from which diagnostics are logged.
    pub log_level: Option<String>,
    /// How many directories a walk keeps open.
    pub max_open_files: Option<usize>,
    /// How many bytes of a newly observed file are shown.
    pub tail_bytes: Option<u64>,
    /// Whether a walk follows symbolic links.
    pub follow_links: Option<bool>,
    /// How many levels below a root are walked.
    pub max_dir_depth: Option<usize>,
}

/// The severity from which diagnostics are logged.
#[derive(Clone, Copy, Debug, PartialEq, Eq)]
pub enum LogLevel {
    /// Nothing is logged.
    Off,
    /// Errors only.
    Error,
    /// Warnings and errors.
    Warn,
    /// Informational messages and above.
    Info,
    /// Debugging messages and above.
    Debug,
    /// Everything.
    Trace,
}

/// How a tree is walked: children before their directory, always.
#[derive(Clone, Copy, Debug, PartialEq, Eq)]
pub struct WalkOptions {
    /// Whether the entries of a directory come before the directory.
    pub contents_first: bool,
    /// Whether symbolic links are followed.
    pub follow_links: bool,
    /// How many directories are kept open at once.
    pub max_open: usize,
    /// How many levels below the root are walked.
    pub max_depth: usize,
}

/// The level that a name stands for: one of the six names in capitals, and
/// `Info` for anything else.
pub open spec fn level_named(name: Seq<char>) -> LogLevel {
    if name == "OFF"@ {
        LogLevel::Off
    } else if name == "ERROR"@ {
        LogLevel::Error
    } else if name == "WARN"@ {
        LogLevel::Warn
    } else if name == "INFO"@ {
        LogLevel::Info
    } else if name == "DEBUG"@ {
        LogLevel::Debug
    } else if name == "TRACE"@ {
        LogLevel::Trace
    } else {
        LogLevel::Info
    }
}

impl Default for Config {
    /// The configuration in which every option is set to its default.
    fn default() -> (config: Config)
        ensures
            text_view(config.output) == Some(STDOUT_DEV@),
            text_view(config.log_level) == Some("INFO"@),
            config.max_open_files == Some(MAX_OPEN_FILES),
            config.tail_bytes == Some(TAIL_BYTES),
            config.follow_links == Some(true),
            config.max_dir_depth == Some(MAX_DIR_DEPTH),
    {
        Config {
            output: Some(STDOUT_DEV.to_owned()),
            log_level: Some("INFO".to_owned()),
            max_open_files: Some(MAX_OPEN_FILES),
            tail_bytes: Some(TAIL_BYTES),
            max_dir_depth: Some(MAX_DIR_DEPTH),
            follow_links: Some(true),
        }
    }
}

impl Config {
    /// Where output goes.
    pub open spec fn spec_output(&self) -> Seq<char> {
        match self.output {
            Some(path) => path@,
            None => STDOUT_DEV@,
        }
    }

    /// The level from which diagnostics are logged.
    pub open spec fn spec_log_level(&self) -> LogLevel {
        match self.log_level {
            Some(name) => level_named(name@),
            None => LogLevel::Info,
        }
    }

    /// How many bytes of a newly observed file are shown.
    pub open spec fn spec_tail_bytes(&self) -> u64 {
        match self.tail_bytes {
            Some(n) => n,
            None => TAIL_BYTES,
        }
    }

    /// How a tree is walked.
    pub open spec fn spec_walk_options(&self) -> WalkOptions {
        WalkOptions {
            contents_first: true,
            follow_links: match self.follow_links {
                Some(follow) => follow,
                None => true,
            },
            max_open: match self.max_open_files {
                Some(n) => n,
                None => MAX_OPEN_FILES,
            },
            max_depth: match self.max_dir_depth {
                Some(n) => n,
                None => MAX_DIR_DEPTH,
            },
        }
    }

    /// The level from which diagnostics are logged: the level that the
    /// configured name stands for, `Info` where none is configured.
    pub fn get_log_level(&self) -> (level: LogLevel)
        ensures
            level == self.spec_log_level(),
    {
        match &self.log_level {
            None => LogLevel::Info,
            Some(name) => {
                let name = name.as_str();
                if same_text(name, "OFF") {
                    LogLevel::Off
                } else if same_text(name, "ERROR") {
                    LogLevel::Error
                } else if same_text(name, "WARN") {
                    LogLevel::Warn
                } else if same_text(name, "INFO") {
                    LogLevel::Info
                } else if same_text(name, "DEBUG") {
                    LogLevel::Debug
                } else if same_text(name, "TRACE") {
                    LogLevel::Trace
                } else {
                    LogLevel::Info
                }
            },
        }
    }

    /// Where output goes.
    pub fn output_path(&self) -> (path: String)
        ensures
            path@ == self.spec_output(),
    {
        match &self.output {
            Some(path) => path.clone(),
            None => STDOUT_DEV.to_owned(),
        }
    }

    /// How many bytes of a newly observed file are shown.
    pub fn tail_window(&self) -> (n: u64)
        ensures
            n == self.spec_tail_bytes(),
    {
        match self.tail_bytes {
            Some(n) => n,
            None => TAIL_BYTES,
        }
    }

    /// How a tree is walked.
    pub fn walk_options(&self) -> (options: WalkOptions)
        ensures
            options == self.spec_walk_options(),
    {
        WalkOptions {
            contents_first: true,
            follow_links: match self.follow_links {
                Some(follow) => follow,
                None => true,
            },
            max_open: match self.max_open_files {
                Some(n) => n,
                None => MAX_OPEN_FILES,
            },
            max_depth: match self.max_dir_depth {
                Some(n) => n,
                None => MAX_DIR_DEPTH,
            },
        }
    }

    /// The configuration to run with: the one that was read, or the
    /// defaults where none could be read.
    pub fn or_defaults(read: Option<Config>) -> (config: Config)
        ensures
            read matches Some(given) ==> config == given,
            read is None ==> {
                &&& text_view(config.output) == Some(STDOUT_DEV@)
                &&& text_view(config.log_level) == Some("INFO"@)
                &&& config.max_open_files == Some(MAX_OPEN_FILES)
                &&& config.tail_bytes == Some(TAIL_BYTES)
                &&& config.follow_links == Some(true)
                &&& config.max_dir_depth == Some(MAX_DIR_DEPTH)
            },
    {
        match read {
            Some(given) => given,
            None => Config::default(),
        }
    }
}

/// The places where a configuration file is looked for, in order, for a
/// user whose home directory is `home`.
pub open spec fn spec_config_paths(home: Seq<char>) -> Seq<Seq<char>> {
    seq![
        home + "/.lw.conf"@,
        home + "/.config/lw.conf"@,
        "/Services/Lw/service.conf"@,
        "lw.conf"@,
    ]
}

/// Lists the places where a configuration file is looked for.
pub fn config_paths(home: &str) -> (paths: Vec<String>)
    ensures
        paths.deep_view() == spec_config_paths(home@),
{
    let mut paths: Vec<String> = Vec::new();
    paths.push(String::from_str(home).concat("/.lw.conf"));
    paths.push(String::from_str(home).concat("/.config/lw.conf"));
    paths.push(String::from_str("/Services/Lw/service.conf"));
    paths.push(String::from_str("lw.conf"));
    assert(paths.deep_view() =~= spec_config_paths(home@));
    paths
}

/// Whether `at` is the first place at which a file exists.
pub open spec fn is_first_existing(exists: Seq<bool>, at: int) -> bool {
    &&& 0 <= at < exists.len()
    &&& exists[at]
    &&& forall|k: int| 0 <= k < at ==> !exists[k]
}

/// The first place at which a configuration file exists, given for each
/// place whether one does; `None` where none does, in which case the
/// defaults are to be written to the first place.
pub fn first_existing(exists: &[bool]) -> (found: Option<usize>)
    ensures
        match found {
            Some(at) => is_first_existing(exists@, at as int),
            None => forall|k: int| 0 <= k < exists@.len() ==> !exists@[k],
        },
{
    let mut i: usize = 0;
    while i < exists.len()
        invariant
            i <= exists@.len(),
            forall|k: int| 0 <= k < i ==> !exists@[k],
        decreases exists@.len() - i,
    {
        if exists[i] {
            return Some(i);
        }
        i += 1;
    }
    None
}

} // verus!
