//! Severity levels and the threshold rule that decides whether an event is shown.

use vstd::prelude::*;
use vstd::std_specs::cmp::PartialOrdSpecImpl;
use std::cmp::Ordering;

verus! {

/// How severe a log event is. `Error` is the most severe level, `Debug` the
/// least severe one; the levels are ordered `Error < Warn < Info < Debug`.
#[derive(Clone, Copy, Debug, PartialEq, Eq, Structural, Hash)]
pub enum Level {
    Error,
    Warn,
    Info,
    Debug,
}

impl Level {
    /// Position of the level in the order `Error < Warn < Info < Debug`.
    pub open spec fn rank(self) -> nat {
        match self {
            Level::Error => 0,
            Level::Warn => 1,
            Level::Info => 2,
            Level::Debug => 3,
        }
    }

    /// The executable counterpart of [`Level::rank`].
    pub fn ordinal(self) -> (r: u8)
        ensures
            r == self.rank(),
    {
        match self {
            Level::Error => 0,
            Level::Warn => 1,
            Level::Info => 2,
            Level::Debug => 3,
        }
    }

    /// Whether an event of this severity is shown under the minimum level
    /// `threshold`.
    pub fn passes(self, threshold: Level) -> (r: bool)
        ensures
            r == passes(self, threshold),
    {
        self <= threshold
    }
}

/// How two levels compare: by their ranks.
pub open spec fn compared(a: Level, b: Level) -> Ordering {
    if a.rank() < b.rank() {
        Ordering::Less
    } else if a.rank() == b.rank() {
        Ordering::Equal
    } else {
        Ordering::Greater
    }
}

impl PartialOrd for Level {
    fn partial_cmp(&self, other: &Level) -> (r: Option<Ordering>) {
        let a = self.ordinal();
        let b = other.ordinal();
        if a < b {
            Some(Ordering::Less)
        } else if a == b {
            Some(Ordering::Equal)
        } else {
            Some(Ordering::Greater)
        }
    }
}

impl PartialOrdSpecImpl for Level {
    open spec fn obeys_partial_cmp_spec() -> bool {
        true
    }

    open spec fn partial_cmp_spec(&self, other: &Level) -> Option<Ordering> {
        Some(compared(*self, *other))
    }
}

/// An event of severity `level` is shown under the minimum level `threshold`
/// exactly when it is at least as severe as the threshold.
pub open spec fn passes(level: Level, threshold: Level) -> bool {
    level.rank() <= threshold.rank()
}

/// The order of the levels is total: two levels compare as equal only when
/// they are the same level, and of two different levels one is the more
/// severe.
pub proof fn law_levels_are_totally_ordered(a: Level, b: Level, c: Level)
    ensures
        compared(a, b) == Ordering::Equal <==> a == b,
        compared(a, b) == Ordering::Less <==> compared(b, a) == Ordering::Greater,
        compared(a, b) == Ordering::Less && compared(b, c) == Ordering::Less ==> compared(a, c)
            == Ordering::Less,
        passes(a, b) <==> compared(a, b) != Ordering::Greater,
{
}

} // verus!
