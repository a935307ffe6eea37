use vstd::prelude::*;

verus! {

use crate::text;

/// The four headings the robot can face. The clockwise cycle is
/// North -> East -> South -> West -> North.
#[derive(Clone, Copy, PartialEq, Eq, Structural, Debug)]
pub enum CompassDirection {
    North,
    East,
    South,
    West,
}

impl CompassDirection {
    /// The heading one quarter-turn counter-clockwise from this one.
    pub open spec fn spec_left(self) -> CompassDirection {
        match self {
            CompassDirection::North => CompassDirection::West,
            CompassDirection::West => CompassDirection::South,
            CompassDirection::South => CompassDirection::East,
            CompassDirection::East => CompassDirection::North,
        }
    }

    /// The heading one quarter-turn clockwise from this one.
    pub open spec fn spec_right(self) -> CompassDirection {
        match self {
            CompassDirection::North => CompassDirection::East,
            CompassDirection::East => CompassDirection::South,
            CompassDirection::South => CompassDirection::West,
            CompassDirection::West => CompassDirection::North,
        }
    }

    /// The uppercase name of the heading, as it appears both in `PLACE`
    /// commands and in report output.
    pub open spec fn spec_name(self) -> Seq<char> {
        match self {
            CompassDirection::North => "NORTH"@,
            CompassDirection::East => "EAST"@,
            CompassDirection::South => "SOUTH"@,
            CompassDirection::West => "WEST"@,
        }
    }

    /// A direction token is exactly one of the four uppercase names;
    /// anything else is rejected.
    pub open spec fn spec_parse(s: Seq<char>) -> Option<CompassDirection> {
        if s == "NORTH"@ {
            Some(CompassDirection::North)
        } else if s == "EAST"@ {
            Some(CompassDirection::East)
        } else if s == "SOUTH"@ {
            Some(CompassDirection::South)
        } else if s == "WEST"@ {
            Some(CompassDirection::West)
        } else {
            None
        }
    }

    pub fn turned_left(self) -> (r: CompassDirection)
        ensures
            r == self.spec_left(),
    {
        match self {
            CompassDirection::North => CompassDirection::West,
            CompassDirection::West => CompassDirection::South,
            CompassDirection::South => CompassDirection::East,
            CompassDirection::East => CompassDirection::North,
        }
    }

    pub fn turned_right(self) -> (r: CompassDirection)
        ensures
            r == self.spec_right(),
    {
        match self {
            CompassDirection::North => CompassDirection::East,
            CompassDirection::East => CompassDirection::South,
            CompassDirection::South => CompassDirection::West,
            CompassDirection::West => CompassDirection::North,
        }
    }

    pub fn name(self) -> (r: &'static str)
        ensures
            r@ == self.spec_name(),
    {
        match self {
            CompassDirection::North => "NORTH",
            CompassDirection::East => "EAST",
            CompassDirection::South => "SOUTH",
            CompassDirection::West => "WEST",
        }
    }

    pub fn parse(s: &str) -> (r: Option<CompassDirection>)
        ensures
            r == CompassDirection::spec_parse(s@),
    {
        if text::str_eq(s, "NORTH") {
            Some(CompassDirection::North)
        } else if text::str_eq(s, "EAST") {
            Some(CompassDirection::East)
        } else if text::str_eq(s, "SOUTH") {
            Some(CompassDirection::South)
        } else if text::str_eq(s, "WEST") {
            Some(CompassDirection::West)
        } else {
            None
        }
    }
}

} // verus!
