//! The four ways a character can face.

use vstd::prelude::*;
use crate::text::chars_of;

verus! {

/// A compass direction.
#[derive(Clone, Copy, Debug, PartialEq, Eq, Structural)]
pub enum Directions {
    North,
    South,
    East,
    West,
}

impl Directions {
    /// The direction that a key name stands for: `n`, `s`, `e` and `w` name
    /// north, south, east and west, and every other text counts as north.
    pub open spec fn parse(s: Seq<char>) -> Directions {
        if s == seq!['s'] {
            Directions::South
        } else if s == seq!['e'] {
            Directions::East
        } else if s == seq!['w'] {
            Directions::West
        } else {
            Directions::North
        }
    }
}

impl From<&str> for Directions {
    fn from(s: &str) -> (r: Directions) {
        let chars = chars_of(s);
        if chars.len() != 1 {
            return Directions::North;
        }
        assert(chars@ =~= seq![chars@[0]]);
        let c = chars[0];
        if c == 's' {
            Directions::South
        } else if c == 'e' {
            Directions::East
        } else if c == 'w' {
            Directions::West
        } else {
            assert(seq!['s'][0] == 's' && seq!['e'][0] == 'e' && seq!['w'][0] == 'w');
            Directions::North
        }
    }
}

impl vstd::std_specs::convert::FromSpecImpl<&str> for Directions {
    open spec fn obeys_from_spec() -> bool {
        true
    }

    open spec fn from_spec(s: &str) -> Directions {
        Directions::parse(s@)
    }
}

/// The way a character faces now and the way it faced before.
#[derive(Clone, Copy, Debug, PartialEq, Eq, Structural)]
pub struct Direction {
    pub current: Directions,
    pub previous: Directions,
}

impl Default for Direction {
    fn default() -> (r: Direction)
        ensures
            r == (Direction { current: Directions::South, previous: Directions::South }),
    {
        Direction { current: Directions::South, previous: Directions::South }
    }
}

} // verus!
