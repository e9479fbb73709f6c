//! Log severities used by the UI's log pane.

use vstd::prelude::*;

verus! {

/// How severe a log entry is. Lower severity numbers are more severe.
#[derive(Clone, Copy, Debug, PartialEq, Eq, Structural)]
pub enum Level {
    Error,
    Warn,
    Info,
    Verbose,
}

impl Level {
    /// Every level, from most to least severe.
    pub const ALL: [Level; 4] = [Level::Error, Level::Warn, Level::Info, Level::Verbose];

    /// The rank used to filter entries: an entry is shown when its level's
    /// rank is at most the configured level's rank.
    pub fn severity(&self) -> (r: u8)
        ensures
            r == self.spec_severity(),
    {
        match self {
            Level::Error => 0,
            Level::Warn => 1,
            Level::Info => 2,
            Level::Verbose => 3,
        }
    }

    pub open spec fn spec_severity(&self) -> u8 {
        match self {
            Level::Error => 0,
            Level::Warn => 1,
            Level::Info => 2,
            Level::Verbose => 3,
        }
    }
}

impl Default for Level {
    fn default() -> (r: Self)
        ensures
            r == Level::Error,
    {
        Level::Error
    }
}

} // verus!
