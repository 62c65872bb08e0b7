use vstd::prelude::*;
use crate::point::abs;

verus! {

/// The four compass directions.
#[derive(Clone, Copy, Debug, PartialEq, Eq, Structural)]
pub enum Direction {
    North,
    South,
    East,
    West,
}

/// Every direction, in the fixed order used for display and for the walls.
pub open spec fn all_directions() -> Seq<Direction> {
    seq![Direction::North, Direction::South, Direction::East, Direction::West]
}

impl Direction {
    /// The reverse direction: North and South swap, East and West swap.
    pub open spec fn flip(self) -> Direction {
        match self {
            Direction::North => Direction::South,
            Direction::South => Direction::North,
            Direction::East => Direction::West,
            Direction::West => Direction::East,
        }
    }

    /// The change in `x` of a step in this direction.
    pub open spec fn dx(self) -> int {
        match self {
            Direction::East => 1,
            Direction::West => -1,
            _ => 0,
        }
    }

    /// The change in `y` of a step in this direction.
    pub open spec fn dy(self) -> int {
        match self {
            Direction::North => 1,
            Direction::South => -1,
            _ => 0,
        }
    }

    /// The direction's position in `all_directions()`.
    pub open spec fn index(self) -> int {
        match self {
            Direction::North => 0,
            Direction::South => 1,
            Direction::East => 2,
            Direction::West => 3,
        }
    }

    /// The display name of the direction.
    pub open spec fn label(self) -> Seq<char> {
        match self {
            Direction::North => "North"@,
            Direction::South => "South"@,
            Direction::East => "East"@,
            Direction::West => "West"@,
        }
    }

    /// All four directions: North, South, East, West.
    pub fn all() -> (r: Vec<Direction>)
        ensures
            r@ == all_directions(),
    {
        let mut directions = Vec::new();
        directions.push(Direction::North);
        directions.push(Direction::South);
        directions.push(Direction::East);
        directions.push(Direction::West);
        directions
    }

    /// A user-friendly name for the direction.
    pub fn name(self) -> (r: &'static str)
        ensures
            r@ == self.label(),
    {
        match self {
            Direction::North => "North",
            Direction::South => "South",
            Direction::East => "East",
            Direction::West => "West",
        }
    }

    /// The reverse direction: North <-> South, East <-> West.
    pub fn opposite(self) -> (r: Direction)
        ensures
            r == self.flip(),
    {
        match self {
            Direction::North => Direction::South,
            Direction::South => Direction::North,
            Direction::East => Direction::West,
            Direction::West => Direction::East,
        }
    }

    /// The unit displacement `(dx, dy)` of one step in this direction.
    pub fn step_vector(self) -> (r: (i64, i64))
        ensures
            r.0 == self.dx(),
            r.1 == self.dy(),
    {
        match self {
            Direction::North => (0, 1),
            Direction::South => (0, -1),
            Direction::East => (1, 0),
            Direction::West => (-1, 0),
        }
    }
}

/// Reversing a direction twice gives it back, and no direction is its own reverse.
pub proof fn lemma_opposite_involutive(d: Direction)
    ensures
        d.flip().flip() == d,
        d.flip() != d,
{
}

/// Reversing is a bijection: distinct directions have distinct reverses.
pub proof fn lemma_opposite_injective(a: Direction, b: Direction)
    ensures
        a.flip() == b.flip() <==> a == b,
{
}

/// Every direction occurs in `all_directions()`, exactly once, at its index.
pub proof fn lemma_all_directions_complete(d: Direction)
    ensures
        all_directions().len() == 4,
        0 <= d.index() < 4,
        all_directions()[d.index()] == d,
        forall|i: int| 0 <= i < 4 && #[trigger] all_directions()[i] == d ==> i == d.index(),
{
}

/// A step in any direction moves along exactly one axis, by exactly one.
pub proof fn lemma_unit_step(d: Direction)
    ensures
        abs(d.dx()) + abs(d.dy()) == 1,
        d.dx() == 0 || d.dy() == 0,
        d.flip().dx() == -d.dx(),
        d.flip().dy() == -d.dy(),
{
}

} // verus!
