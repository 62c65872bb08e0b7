use vstd::prelude::*;

verus! {

/// The absolute value of an integer.
pub open spec fn abs(v: int) -> int {
    if v < 0 {
        -v
    } else {
        v
    }
}

/// Manhattan distance between the points `(x1, y1)` and `(x2, y2)`.
pub open spec fn manhattan(x1: int, y1: int, x2: int, y2: int) -> int {
    abs(x1 - x2) + abs(y1 - y2)
}

/// A coordinate in the maze.
#[derive(Clone, Copy, Debug, PartialEq, Eq)]
pub struct Point {
    pub x: i64,
    pub y: i64,
}

impl Point {
    /// Number of steps between two points, moving along the axes.
    pub open spec fn dist(self, other: Point) -> int {
        manhattan(self.x as int, self.y as int, other.x as int, other.y as int)
    }

    /// Distance (in steps) to a target point. The result must fit in `u64`.
    pub fn distance(self, other: Point) -> (r: u64)
        requires
            self.dist(other) <= u64::MAX,
        ensures
            r == self.dist(other),
    {
        let x_diff = abs_diff(self.x, other.x);
        let y_diff = abs_diff(self.y, other.y);
        x_diff + y_diff
    }
}

/// `|a - b|`, computed without overflow.
fn abs_diff(a: i64, b: i64) -> (r: u64)
    ensures
        r == abs(a - b),
{
    if a >= b {
        (a as i128 - b as i128) as u64
    } else {
        (b as i128 - a as i128) as u64
    }
}

/// Distance is symmetric, and a point is at distance zero from itself.
pub proof fn lemma_distance_symmetric(a: Point, b: Point)
    ensures
        a.dist(b) == b.dist(a),
        a.dist(a) == 0,
{
}

/// Distance is zero exactly between equal points.
pub proof fn lemma_distance_zero_iff_equal(a: Point, b: Point)
    ensures
        a.dist(b) >= 0,
        a.dist(b) == 0 <==> a == b,
{
}

/// Distance satisfies the triangle inequality.
pub proof fn lemma_distance_triangle(a: Point, b: Point, c: Point)
    ensures
        a.dist(c) <= a.dist(b) + b.dist(c),
{
}

} // verus!
