use vstd::prelude::*;
use crate::direction::{all_directions, Direction};
use crate::random::coin;

verus! {

/// Which of the four directions around the current junction are open.
#[derive(Clone, Copy, Debug, PartialEq, Eq)]
pub struct WallState {
    pub north: bool,
    pub south: bool,
    pub east: bool,
    pub west: bool,
}

/// The walls after a move in `travelled`: the way back is open, and each other
/// direction `d` is open exactly when `coins[d.index()]` is true.
pub open spec fn regenerated(travelled: Direction, coins: Seq<bool>) -> WallState {
    let back = travelled.flip();
    WallState {
        north: back == Direction::North || coins[Direction::North.index()],
        south: back == Direction::South || coins[Direction::South.index()],
        east: back == Direction::East || coins[Direction::East.index()],
        west: back == Direction::West || coins[Direction::West.index()],
    }
}

impl WallState {
    /// Whether `d` is open.
    pub open spec fn open(self, d: Direction) -> bool {
        match d {
            Direction::North => self.north,
            Direction::South => self.south,
            Direction::East => self.east,
            Direction::West => self.west,
        }
    }

    /// The walls before the first move: every direction is open.
    pub fn all_open() -> (r: WallState)
        ensures
            forall|d: Direction| r.open(d),
    {
        WallState { north: true, south: true, east: true, west: true }
    }

    /// Whether the player can currently go in `direction`.
    pub fn is_open(&self, direction: Direction) -> (r: bool)
        ensures
            r == self.open(direction),
    {
        match direction {
            Direction::North => self.north,
            Direction::South => self.south,
            Direction::East => self.east,
            Direction::West => self.west,
        }
    }

    /// The directions that are currently blocked, in the order North, South,
    /// East, West.
    pub fn blocked_directions(&self) -> (r: Vec<Direction>)
        ensures
            r@ == all_directions().filter(|d: Direction| !self.open(d)),
    {
        let directions = Direction::all();
        let mut blocked: Vec<Direction> = Vec::new();
        let mut i: usize = 0;
        while i < directions.len()
            invariant
                directions@ == all_directions(),
                i <= directions@.len(),
                blocked@ == directions@.subrange(0, i as int).filter(
                    |d: Direction| !self.open(d),
                ),
            decreases directions@.len() - i,
        {
            let d = directions[i];
            proof {
                assert(directions@.subrange(0, i + 1) == directions@.subrange(0, i as int).push(
                    d,
                ));
                directions@.subrange(0, i as int).lemma_filter_push(
                    d,
                    |d: Direction| !self.open(d),
                );
            }
            if !self.is_open(d) {
                blocked.push(d);
            }
            i = i + 1;
        }
        proof {
            assert(directions@.subrange(0, i as int) == directions@);
        }
        blocked
    }

    /// Regenerates the walls after a move in `travelled`, from one coin per
    /// direction (indexed in the order North, South, East, West): the way
    /// back is forced open, every other direction takes its coin's value.
    /// The previous walls are discarded.
    pub fn regenerate_with(&mut self, travelled: Direction, coins: [bool; 4])
        ensures
            *final(self) == regenerated(travelled, coins@),
    {
        let back = travelled.opposite();
        self.north = back == Direction::North || coins[0];
        self.south = back == Direction::South || coins[1];
        self.east = back == Direction::East || coins[2];
        self.west = back == Direction::West || coins[3];
    }

    /// Regenerates the walls after a move in `travelled`: the way back is
    /// forced open, and every other direction is open or blocked at random,
    /// each with its own fair coin.
    pub fn regenerate(&mut self, travelled: Direction)
        ensures
            exists|coins: Seq<bool>|
                coins.len() == 4 && *final(self) == #[trigger] regenerated(travelled, coins),
            final(self).open(travelled.flip()),
    {
        let back = travelled.opposite();
        let directions = Direction::all();
        let mut coins: [bool; 4] = [true; 4];
        let mut i: usize = 0;
        while i < directions.len()
            invariant
                directions@ == all_directions(),
                i <= directions@.len(),
            decreases directions@.len() - i,
        {
            if directions[i] != back {
                coins[i] = coin();
            }
            i = i + 1;
        }
        self.regenerate_with(travelled, coins);
        proof {
            lemma_backtrack_open(travelled, coins@);
        }
    }
}

/// After a regeneration the way back is open, whatever the coins; every
/// other direction is open exactly when its own coin says so.
pub proof fn lemma_backtrack_open(travelled: Direction, coins: Seq<bool>)
    requires
        coins.len() == 4,
    ensures
        regenerated(travelled, coins).open(travelled.flip()),
        forall|d: Direction|
            d != travelled.flip() ==> (#[trigger] regenerated(travelled, coins).open(d)
                == coins[d.index()]),
{
}

} // verus!
