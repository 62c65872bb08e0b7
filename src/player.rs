use vstd::prelude::*;
use crate::direction::Direction;
use crate::point::Point;

verus! {

/// The player's state: where they stand, and whether they hold the key.
#[derive(Clone, Copy, Debug, PartialEq, Eq)]
pub struct Player {
    pub location: Point,
    pub has_key: bool,
}

/// A step in `d` from `p` stays within the range of `i64`.
pub open spec fn can_step(p: Point, d: Direction) -> bool {
    i64::MIN <= p.x + d.dx() <= i64::MAX && i64::MIN <= p.y + d.dy() <= i64::MAX
}

impl Player {
    /// A new player at the origin, without the key.
    pub fn new() -> (r: Player)
        ensures
            r.location == (Point { x: 0, y: 0 }),
            !r.has_key,
    {
        Player { location: Point { x: 0, y: 0 }, has_key: false }
    }

    /// Moves the player one step in `direction`.
    pub fn step(&mut self, direction: Direction)
        requires
            can_step(old(self).location, direction),
        ensures
            final(self).location.x == old(self).location.x + direction.dx(),
            final(self).location.y == old(self).location.y + direction.dy(),
            final(self).has_key == old(self).has_key,
            (final(self).location.x != old(self).location.x) != (final(self).location.y
                != old(self).location.y),
            final(self).location.dist(old(self).location) == 1,
    {
        match direction {
            Direction::North => {
                self.location.y = self.location.y + 1;
            },
            Direction::South => {
                self.location.y = self.location.y - 1;
            },
            Direction::East => {
                self.location.x = self.location.x + 1;
            },
            Direction::West => {
                self.location.x = self.location.x - 1;
            },
        }
    }
}

} // verus!
