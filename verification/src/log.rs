//! What the configuration says about logging.

use vstd::prelude::*;

verus! {

/// How much a log record matters, from the gravest to the most verbose.
#[derive(Debug, Clone, Copy, PartialEq, Eq, Structural)]
pub enum Level {
    Error,
    Warn,
    Info,
    Debug,
    Trace,
}

impl Level {
    /// The place of a level from the gravest, 1, to the most verbose, 5.
    pub open spec fn spec_rank(self) -> int {
        match self {
            Level::Error => 1,
            Level::Warn => 2,
            Level::Info => 3,
            Level::Debug => 4,
            Level::Trace => 5,
        }
    }

    /// The place of the level from the gravest, 1, to the most verbose, 5.
    pub fn rank(&self) -> (n: u8)
        ensures
            n == self.spec_rank(),
    {
        match self {
            Level::Error => 1,
            Level::Warn => 2,
            Level::Info => 3,
            Level::Debug => 4,
            Level::Trace => 5,
        }
    }
}

/// The logging section of the configuration.
#[derive(Debug, Clone, PartialEq, Eq)]
pub struct Log {
    /// The most verbose level that is written.
    pub level: Level,
    /// `json`, in any case of letters, for one JSON object per record; any
    /// other text for the layout meant to be read.
    pub format: String,
    /// The directory that holds the log files.
    pub dir: String,
    /// The name of the daily log file.
    pub file: String,
}

impl Log {
    /// The level where the configuration names none: `Info`.
    pub fn default_level() -> (level: Level)
        ensures
            level == Level::Info,
    {
        Level::Info
    }

    /// The format where the configuration names none: `json`.
    pub fn default_format() -> (format: String)
        ensures
            format@ == "json"@,
    {
        "json".to_owned()
    }

    /// The directory where the configuration names none: `./logs`.
    pub fn default_dir() -> (dir: String)
        ensures
            dir@ == "./logs"@,
    {
        "./logs".to_owned()
    }

    /// The file where the configuration names none: `iotmq.log`.
    pub fn default_file() -> (file: String)
        ensures
            file@ == "iotmq.log"@,
    {
        "iotmq.log".to_owned()
    }

    /// Whether a record of level `record` belongs in the daily log: errors
    /// have a file of their own, and of the rest those that are no more
    /// verbose than the configured level are written.
    pub open spec fn spec_accepts(self, record: Level) -> bool {
        record != Level::Error && record.spec_rank() <= self.level.spec_rank()
    }

    /// Whether a record of level `record` belongs in the daily log.
    pub fn accepts(&self, record: Level) -> (accepted: bool)
        ensures
            accepted == self.spec_accepts(record),
    {
        match record {
            Level::Error => false,
            other => other.rank() <= self.level.rank(),
        }
    }
}

impl Default for Log {
    fn default() -> (log: Log)
        ensures
            log.level == Level::Info,
            log.format@ == "json"@,
            log.dir@ == "./logs"@,
            log.file@ == "iotmq.log"@,
    {
        Log {
            level: Self::default_level(),
            format: Self::default_format(),
            dir: Self::default_dir(),
            file: Self::default_file(),
        }
    }
}

} // verus!
