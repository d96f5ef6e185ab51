use vstd::prelude::*;

verus! {

/// Logical level of one digital input line.
///
/// The lines are pulled up and low-active: a pressed button and a triggered
/// encoder contact both read `Low`.
#[derive(Clone, Copy, Debug, PartialEq, Eq, Structural)]
pub enum Level {
    Low,
    High,
}

impl Level {
    /// The level that an electrical reading stands for: `true` is `High`.
    pub fn from_bool(high: bool) -> (level: Level)
        ensures
            level == (if high { Level::High } else { Level::Low }),
    {
        if high {
            Level::High
        } else {
            Level::Low
        }
    }

    pub fn is_low(&self) -> (low: bool)
        ensures
            low == (*self == Level::Low),
    {
        match self {
            Level::Low => true,
            Level::High => false,
        }
    }

    pub fn is_high(&self) -> (high: bool)
        ensures
            high == (*self == Level::High),
    {
        match self {
            Level::Low => false,
            Level::High => true,
        }
    }
}

} // verus!
