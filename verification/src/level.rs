//! Log severities, ranked from most to least severe.

use vstd::prelude::*;

verus! {

/// A log severity. `Error` is the most severe, `Debug` the least;
/// severities compare by ordinal, where a lower ordinal is more severe.
#[derive(Clone, Copy, Debug, PartialEq, Eq, Structural)]
pub enum Level {
    Error,
    Warning,
    Info,
    Debug,
}

/// The rank of a severity: 0 for `Error` up to 3 for `Debug`.
pub open spec fn ordinal(l: Level) -> int {
    match l {
        Level::Error => 0,
        Level::Warning => 1,
        Level::Info => 2,
        Level::Debug => 3,
    }
}

/// A message of severity `level` passes a threshold exactly when it is at
/// least as severe, that is, its ordinal is less than or equal.
pub open spec fn passes(level: Level, threshold: Level) -> bool {
    ordinal(level) <= ordinal(threshold)
}

impl Level {
    /// The rank of this severity as a machine integer.
    pub fn rank(&self) -> (r: u32)
        ensures
            r as int == ordinal(*self),
    {
        match self {
            Level::Error => 0,
            Level::Warning => 1,
            Level::Info => 2,
            Level::Debug => 3,
        }
    }

    /// Decides the filtering rule: does a message of this severity pass
    /// the given threshold?
    pub fn passes_threshold(&self, threshold: &Level) -> (b: bool)
        ensures
            b == passes(*self, *threshold),
    {
        self.rank() <= threshold.rank()
    }
}

} // verus!
