//! The debug display of the map, which tints one layer at a time.

use vstd::prelude::*;

verus! {

/// Which layer, if any, is tinted by its triggers.
#[derive(Clone, Copy, Debug, PartialEq, Eq, Structural)]
pub enum DebugMode {
    Disabled,
    TintLowerLayer,
    TintUpperLayer,
}

impl DebugMode {
    /// The mode that follows this one: off, lower layer, upper layer, and off
    /// again.
    pub open spec fn next(self) -> DebugMode {
        match self {
            DebugMode::Disabled => DebugMode::TintLowerLayer,
            DebugMode::TintLowerLayer => DebugMode::TintUpperLayer,
            DebugMode::TintUpperLayer => DebugMode::Disabled,
        }
    }

    /// Steps to the next mode.
    pub fn toggle(&self) -> (r: DebugMode)
        ensures
            r == self.next(),
    {
        match self {
            DebugMode::Disabled => DebugMode::TintLowerLayer,
            DebugMode::TintLowerLayer => DebugMode::TintUpperLayer,
            DebugMode::TintUpperLayer => DebugMode::Disabled,
        }
    }
}

impl Default for DebugMode {
    fn default() -> (r: DebugMode)
        ensures
            r == DebugMode::Disabled,
    {
        DebugMode::Disabled
    }
}

/// The modes form one cycle of three: a step always changes the mode, and
/// three steps lead back to where they began.
pub proof fn lemma_toggle_cycle(mode: DebugMode)
    ensures
        mode.next() != mode,
        mode.next().next() != mode,
        mode.next().next().next() == mode,
{
}

} // verus!
