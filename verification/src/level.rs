//! Severity levels of log records and of the filters that admit them.

use vstd::prelude::*;

verus! {

/// The severity of one log record, most severe first.
#[derive(Clone, Copy, Debug, PartialEq, Eq, Structural)]
pub enum Level {
    Error,
    Warn,
    Info,
    Debug,
    Trace,
}

/// The most verbose level a filter lets through; `Off` lets nothing through.
#[derive(Clone, Copy, Debug, PartialEq, Eq, Structural)]
pub enum LevelFilter {
    Off,
    Error,
    Warn,
    Info,
    Debug,
    Trace,
}

impl Level {
    /// Position of the level on the verbosity scale, from 1 (`Error`) to 5 (`Trace`).
    pub open spec fn rank(self) -> int {
        match self {
            Level::Error => 1,
            Level::Warn => 2,
            Level::Info => 3,
            Level::Debug => 4,
            Level::Trace => 5,
        }
    }

    /// The upper-case word a log line starts with.
    pub open spec fn name(self) -> Seq<char> {
        match self {
            Level::Error => "ERROR"@,
            Level::Warn => "WARN"@,
            Level::Info => "INFO"@,
            Level::Debug => "DEBUG"@,
            Level::Trace => "TRACE"@,
        }
    }

    /// The level's word as the `log` crate prints it.
    ///
    /// Trusted: formats the matching `log::Level` through its `Display` impl,
    /// which pads `Level::as_str()`; with a bare `{}` nothing is padded, so the
    /// text is the upper-case name of the variant.
    #[verifier::external_body]
    pub(crate) fn label(self) -> (text: String)
        ensures
            text@ == self.name(),
    {
        let outside = match self {
            Level::Error => log::Level::Error,
            Level::Warn => log::Level::Warn,
            Level::Info => log::Level::Info,
            Level::Debug => log::Level::Debug,
            Level::Trace => log::Level::Trace,
        };
        format!("{}", outside)
    }
}

impl LevelFilter {
    /// Position of the filter on the verbosity scale, from 0 (`Off`) to 5 (`Trace`).
    pub open spec fn rank(self) -> int {
        match self {
            LevelFilter::Off => 0,
            LevelFilter::Error => 1,
            LevelFilter::Warn => 2,
            LevelFilter::Info => 3,
            LevelFilter::Debug => 4,
            LevelFilter::Trace => 5,
        }
    }

    /// Whether a record of the given level is at most as verbose as the filter.
    pub open spec fn admits(self, level: Level) -> bool {
        level.rank() <= self.rank()
    }
}

} // verus!
