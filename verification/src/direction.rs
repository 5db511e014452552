//! The four approach directions of the junction and the fixed
//! perpendicular-neighbour rotation between them.

use vstd::prelude::*;

verus! {

/// One of the four approaches to the junction.
#[derive(Clone, Copy, PartialEq, Eq, Structural, Debug)]
pub enum Direction {
    North,
    South,
    East,
    West,
}

/// The perpendicular neighbour an agent must also lock before crossing:
/// a closed rotation North -> West -> South -> East -> North.
pub open spec fn spec_neighbour(d: Direction) -> Direction {
    match d {
        Direction::North => Direction::West,
        Direction::West => Direction::South,
        Direction::South => Direction::East,
        Direction::East => Direction::North,
    }
}

/// The character symbols accepted for a direction, upper or lower case.
pub open spec fn spec_direction_of_char(c: char) -> Option<Direction> {
    match c {
        'N' | 'n' => Some(Direction::North),
        'S' | 's' => Some(Direction::South),
        'E' | 'e' => Some(Direction::East),
        'W' | 'w' => Some(Direction::West),
        _ => None,
    }
}

/// True exactly when `c` denotes a direction, case-insensitively.
pub open spec fn spec_valid_direction_char(c: char) -> bool {
    spec_direction_of_char(c) is Some
}

/// The upper-case symbol of a direction.
pub open spec fn spec_char_of_direction(d: Direction) -> char {
    match d {
        Direction::North => 'N',
        Direction::South => 'S',
        Direction::East => 'E',
        Direction::West => 'W',
    }
}

impl Direction {
    /// Parse a direction symbol; both cases are accepted.
    pub fn from_char(c: char) -> (r: Option<Direction>)
        ensures
            r == spec_direction_of_char(c),
    {
        match c {
            'N' | 'n' => Some(Direction::North),
            'S' | 's' => Some(Direction::South),
            'E' | 'e' => Some(Direction::East),
            'W' | 'w' => Some(Direction::West),
            _ => None,
        }
    }

    /// The upper-case symbol of this direction.
    pub fn to_char(self) -> (r: char)
        ensures
            r == spec_char_of_direction(self),
    {
        match self {
            Direction::North => 'N',
            Direction::South => 'S',
            Direction::East => 'E',
            Direction::West => 'W',
        }
    }

    /// The perpendicular neighbour in the fixed rotation.
    pub fn neighbour(self) -> (r: Direction)
        ensures
            r == spec_neighbour(self),
    {
        match self {
            Direction::North => Direction::West,
            Direction::West => Direction::South,
            Direction::South => Direction::East,
            Direction::East => Direction::North,
        }
    }
}

/// The neighbour rotation is a closed 4-cycle: applying it four times
/// returns to the starting direction, for every direction.
pub proof fn lemma_neighbour_four_cycle(d: Direction)
    ensures
        spec_neighbour(spec_neighbour(spec_neighbour(spec_neighbour(d)))) == d,
        spec_neighbour(d) != d,
{
}

} // verus!
