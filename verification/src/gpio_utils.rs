//! Toggling an output: a pin driven high is driven low, any other pin high.

use vstd::prelude::*;

verus! {

/// The level an output pin is driven to.
#[derive(Debug, Clone, Copy, PartialEq, Eq, Structural)]
pub enum Level {
    /// Driven low
    Low,
    /// Driven high
    High,
}

/// The level after toggling `l`.
pub open spec fn toggled(l: Level) -> Level {
    if l == Level::High {
        Level::Low
    } else {
        Level::High
    }
}

/// Toggle functionality for outputs.
pub trait OutputToggle {
    /// Toggle the output from high to low or low to high.
    fn toggle(&mut self);
}

impl OutputToggle for Level {
    /// A high level becomes low, a low level becomes high.
    fn toggle(&mut self)
        ensures
            *final(self) == toggled(*old(self)),
    {
        if *self == Level::High {
            *self = Level::Low;
        } else {
            *self = Level::High;
        }
    }
}

/// Toggling twice gives back the level it started from.
pub proof fn lemma_toggle_twice(l: Level)
    ensures
        toggled(toggled(l)) == l,
        toggled(l) != l,
{
}

} // verus!
