//! Logging configurations and the filter directives they stand for.
use vstd::prelude::*;

use crate::text::push_str;

verus! {

/// Verbosity of the log.
#[derive(Clone, Copy, Debug, PartialEq, Eq, Structural)]
pub enum LogLevel {
    Trace,
    Debug,
    Info,
    Warn,
    Error,
}

/// How the log is filtered and formatted.
#[derive(Clone, Copy, Debug, PartialEq, Eq, Structural)]
pub struct LogConfig {
    pub level: LogLevel,
    pub show_target: bool,
    pub show_thread_ids: bool,
    pub show_thread_names: bool,
    pub show_line_number: bool,
    pub show_file: bool,
    pub compact: bool,
    pub use_colors: bool,
    pub filter_noisy_crates: bool,
}

/// The development configuration: debug level, with targets, thread names and line numbers.
pub open spec fn debug_config() -> LogConfig {
    LogConfig {
        level: LogLevel::Debug,
        show_target: true,
        show_thread_ids: false,
        show_thread_names: true,
        show_line_number: true,
        show_file: false,
        compact: true,
        use_colors: true,
        filter_noisy_crates: true,
    }
}

/// The production configuration: info level, messages only.
pub open spec fn release_config() -> LogConfig {
    LogConfig {
        level: LogLevel::Info,
        show_target: false,
        show_thread_ids: false,
        show_thread_names: false,
        show_line_number: false,
        show_file: false,
        compact: true,
        use_colors: true,
        filter_noisy_crates: true,
    }
}

/// The minimal configuration: errors only, without colors.
pub open spec fn minimal_config() -> LogConfig {
    LogConfig {
        level: LogLevel::Error,
        show_target: false,
        show_thread_ids: false,
        show_thread_names: false,
        show_line_number: false,
        show_file: false,
        compact: true,
        use_colors: false,
        filter_noisy_crates: true,
    }
}

/// The name of a level, as `tracing` writes it.
pub open spec fn level_name(l: LogLevel) -> Seq<char> {
    match l {
        LogLevel::Trace => "TRACE"@,
        LogLevel::Debug => "DEBUG"@,
        LogLevel::Info => "INFO"@,
        LogLevel::Warn => "WARN"@,
        LogLevel::Error => "ERROR"@,
    }
}

/// The level a `--log-level` value names: `error`, `warn`, `info`, `debug` or `trace`.
pub open spec fn level_named(name: Seq<char>) -> Option<LogLevel> {
    if name == "error"@ {
        Some(LogLevel::Error)
    } else if name == "warn"@ {
        Some(LogLevel::Warn)
    } else if name == "info"@ {
        Some(LogLevel::Info)
    } else if name == "debug"@ {
        Some(LogLevel::Debug)
    } else if name == "trace"@ {
        Some(LogLevel::Trace)
    } else {
        None
    }
}

impl LogLevel {
    /// The level a `--log-level` value names (see [`level_named`]).
    pub fn from_name(name: &str) -> (r: Option<LogLevel>)
        ensures
            r == level_named(name@),
    {
        let n = crate::text::to_chars(name);
        if crate::text::chars_eq_str(n.as_slice(), "error") {
            Some(LogLevel::Error)
        } else if crate::text::chars_eq_str(n.as_slice(), "warn") {
            Some(LogLevel::Warn)
        } else if crate::text::chars_eq_str(n.as_slice(), "info") {
            Some(LogLevel::Info)
        } else if crate::text::chars_eq_str(n.as_slice(), "debug") {
            Some(LogLevel::Debug)
        } else if crate::text::chars_eq_str(n.as_slice(), "trace") {
            Some(LogLevel::Trace)
        } else {
            None
        }
    }

    /// The name of the level (see [`level_name`]).
    pub fn name(&self) -> (r: &'static str)
        ensures
            r@ == level_name(*self),
    {
        match self {
            LogLevel::Trace => "TRACE",
            LogLevel::Debug => "DEBUG",
            LogLevel::Info => "INFO",
            LogLevel::Warn => "WARN",
            LogLevel::Error => "ERROR",
        }
    }
}

impl LogConfig {
    /// Configuration for development (verbose).
    pub fn debug() -> (r: Self)
        ensures
            r == debug_config(),
    {
        LogConfig {
            level: LogLevel::Debug,
            show_target: true,
            show_thread_ids: false,
            show_thread_names: true,
            show_line_number: true,
            show_file: false,
            compact: true,
            use_colors: true,
            filter_noisy_crates: true,
        }
    }

    /// Configuration for production (less verbose).
    pub fn release() -> (r: Self)
        ensures
            r == release_config(),
    {
        LogConfig {
            level: LogLevel::Info,
            show_target: false,
            show_thread_ids: false,
            show_thread_names: false,
            show_line_number: false,
            show_file: false,
            compact: true,
            use_colors: true,
            filter_noisy_crates: true,
        }
    }

    /// Minimal configuration (errors only).
    pub fn minimal() -> (r: Self)
        ensures
            r == minimal_config(),
    {
        LogConfig {
            level: LogLevel::Error,
            show_target: false,
            show_thread_ids: false,
            show_thread_names: false,
            show_line_number: false,
            show_file: false,
            compact: true,
            use_colors: false,
            filter_noisy_crates: true,
        }
    }

    /// The default configuration of a build: the debug one for a debug build, else the
    /// release one.
    pub fn for_build(debug_build: bool) -> (r: Self)
        ensures
            r == (if debug_build {
                debug_config()
            } else {
                release_config()
            }),
    {
        if debug_build {
            Self::debug()
        } else {
            Self::release()
        }
    }

    /// This configuration at another level.
    pub fn with_level(&self, level: LogLevel) -> (r: Self)
        ensures
            r == (LogConfig { level, ..*self }),
    {
        LogConfig { level, ..*self }
    }

    /// The filter directive used when `RUST_LOG` gives none: this crate at the configured level.
    pub fn default_directive(&self) -> (r: String)
        ensures
            r@ == "magnetar="@ + level_name(self.level),
    {
        let mut r = String::new();
        push_str(&mut r, "magnetar=");
        push_str(&mut r, self.level.name());
        r
    }

    /// The directives that quiet the GTK and WebKit libraries down to warnings, when the
    /// configuration asks for it.
    pub fn noisy_crate_directives(&self) -> (r: Vec<&'static str>)
        ensures
            self.filter_noisy_crates ==> r@.len() == 5 && r@[0]@ == "gtk=warn"@ && r@[1]@
                == "webkit6=warn"@ && r@[2]@ == "glib=warn"@ && r@[3]@ == "gdk=warn"@ && r@[4]@
                == "gio=warn"@,
            !self.filter_noisy_crates ==> r@.len() == 0,
    {
        let mut r: Vec<&'static str> = Vec::new();
        if self.filter_noisy_crates {
            r.push("gtk=warn");
            r.push("webkit6=warn");
            r.push("glib=warn");
            r.push("gdk=warn");
            r.push("gio=warn");
        }
        r
    }
}

} // verus!
