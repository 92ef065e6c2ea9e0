//! How far a character is into a step and into a turn.

use vstd::prelude::*;

verus! {

/// The counters of a character's movement. Both start at zero.
#[derive(Clone, Copy, Debug, PartialEq, Eq, Structural)]
pub struct Movement {
    pub run_count: u8,
    pub turn_count: u8,
}

impl Default for Movement {
    fn default() -> (r: Movement)
        ensures
            r == (Movement { run_count: 0, turn_count: 0 }),
    {
        Movement { run_count: 0, turn_count: 0 }
    }
}

} // verus!
