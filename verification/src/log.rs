use vstd::prelude::*;

verus! {

/// The severity of a log event, from `ERROR` (most severe, smallest) to
/// `TRACE`.
#[derive(Debug, Clone, Copy, PartialEq, Eq, PartialOrd, Ord, Hash, Structural)]
pub struct Level(u8);

impl Level {
    /// The `ERROR` level.
    pub fn error() -> (r: Level)
        ensures
            r.rank() == 0,
    {
        Level(0)
    }

    /// The `WARN` level.
    pub fn warn() -> (r: Level)
        ensures
            r.rank() == 1,
    {
        Level(1)
    }

    /// The `INFO` level.
    pub fn info() -> (r: Level)
        ensures
            r.rank() == 2,
    {
        Level(2)
    }

    /// The `DEBUG` level.
    pub fn debug() -> (r: Level)
        ensures
            r.rank() == 3,
    {
        Level(3)
    }

    /// The `TRACE` level.
    pub fn trace() -> (r: Level)
        ensures
            r.rank() == 4,
    {
        Level(4)
    }

    /// The level's number: 0 for `ERROR` up to 4 for `TRACE`.
    pub closed spec fn rank(self) -> u8 {
        self.0
    }

    /// The lower-case name of the level, or the empty string for a value that
    /// is none of the five levels.
    pub open spec fn name(self) -> Seq<char> {
        if self.rank() == 0 {
            "error"@
        } else if self.rank() == 1 {
            "warn"@
        } else if self.rank() == 2 {
            "info"@
        } else if self.rank() == 3 {
            "debug"@
        } else if self.rank() == 4 {
            "trace"@
        } else {
            ""@
        }
    }

    /// The lower-case name of the level (`"error"`, `"warn"`, `"info"`,
    /// `"debug"`, `"trace"`).
    pub fn as_str(self) -> (r: &'static str)
        ensures
            r@ == self.name(),
    {
        if self.0 == 0 {
            "error"
        } else if self.0 == 1 {
            "warn"
        } else if self.0 == 2 {
            "info"
        } else if self.0 == 3 {
            "debug"
        } else if self.0 == 4 {
            "trace"
        } else {
            ""
        }
    }
}

} // verus!
