//! Log levels and the syslog severities they are sent with.

use vstd::prelude::*;

verus! {

/// A level that identifies a log message.
/// A lower level includes all higher levels.
#[derive(PartialEq, Eq, Structural, Clone, Copy, Debug)]
pub enum Level {
    Debug,
    Verbose,
    Notice,
    Warning,
}

/// The syslog severities that a level can stand for.
#[derive(PartialEq, Eq, Structural, Clone, Copy, Debug)]
pub enum Severity {
    Debug,
    Info,
    Notice,
    Warning,
}

impl Level {
    /// The place of the level in the order, the most talkative level first.
    pub open spec fn rank(self) -> int {
        match self {
            Level::Debug => 0,
            Level::Verbose => 1,
            Level::Notice => 2,
            Level::Warning => 3,
        }
    }

    /// Whether a logger at this level keeps messages of level `other`.
    pub open spec fn includes(self, other: Level) -> bool {
        self.rank() <= other.rank()
    }

    /// The severity that messages of this level have in syslog.
    pub open spec fn as_severity(self) -> Severity {
        match self {
            Level::Debug => Severity::Debug,
            Level::Verbose => Severity::Info,
            Level::Notice => Severity::Notice,
            Level::Warning => Severity::Warning,
        }
    }

    /// Whether the level is equal or lower than another level.
    /// For example, `Debug` includes all other levels, while `Warning` only
    /// includes itself.
    pub fn contains(&self, other: &Level) -> (kept: bool)
        ensures
            kept == self.includes(*other),
    {
        match *self {
            Level::Debug => true,
            Level::Verbose => *other != Level::Debug,
            Level::Notice => *other == Level::Notice || *other == Level::Warning,
            Level::Warning => *other == Level::Warning,
        }
    }

    /// The severity under which a message of this level goes to syslog.
    pub fn severity(&self) -> (severity: Severity)
        ensures
            severity == self.as_severity(),
    {
        match *self {
            Level::Debug => Severity::Debug,
            Level::Verbose => Severity::Info,
            Level::Notice => Severity::Notice,
            Level::Warning => Severity::Warning,
        }
    }
}

} // verus!
