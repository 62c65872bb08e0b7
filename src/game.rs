use vstd::prelude::*;
use crate::command::Command;
use crate::direction::Direction;
use crate::player::{can_step, Player};
use crate::point::{abs, manhattan, Point};
use crate::random::random_integer;
use crate::walls::{regenerated, WallState};

verus! {

/// Where a game stands.
#[derive(Clone, Copy, Debug, PartialEq, Eq, Structural)]
pub enum GameState {
    Playing,
    /// The player reached the exit holding the key.
    Escaped,
    /// The player gave up.
    Quit,
}

/// What a turn did, for the player to be told.
#[derive(Clone, Copy, Debug, PartialEq, Eq, Structural)]
pub enum TurnOutcome {
    /// The player asked to quit.
    Quit,
    /// A wall stands that way: nothing changed.
    Blocked,
    /// The player stepped onto the key.
    FoundKey,
    /// The player stepped onto the exit with the key, and escaped.
    Escaped,
    /// The step brought the player closer to the objective.
    Closer,
    /// The step left the player as far from the objective as before.
    AsFar,
    /// The step took the player further from the objective.
    Further,
}

/// One game session: the player, the two hidden goals, and the walls around
/// the junction where the player stands.
#[derive(Clone, Copy, Debug, PartialEq, Eq)]
pub struct Game {
    pub player: Player,
    pub key_location: Point,
    pub exit_location: Point,
    pub walls: WallState,
    pub state: GameState,
}

/// The feedback for a step that did not reach the objective, from the
/// distance before the step and the distance after it.
pub open spec fn feedback(last: int, now: int) -> TurnOutcome {
    if now < last {
        TurnOutcome::Closer
    } else if now == last {
        TurnOutcome::AsFar
    } else {
        TurnOutcome::Further
    }
}

/// Whether the walls shift after a turn with this outcome: after every
/// accepted step, unless it ended the game.
pub open spec fn walls_shift(r: TurnOutcome) -> bool {
    r == TurnOutcome::FoundKey || r == TurnOutcome::Closer || r == TurnOutcome::AsFar || r
        == TurnOutcome::Further
}

impl Game {
    /// The point the player is heading for: the key, then the exit.
    pub open spec fn target(self) -> Point {
        if self.player.has_key {
            self.exit_location
        } else {
            self.key_location
        }
    }

    /// Where a step in `d` takes the player.
    pub open spec fn stepped(self, d: Direction) -> Point {
        Point {
            x: (self.player.location.x + d.dx()) as i64,
            y: (self.player.location.y + d.dy()) as i64,
        }
    }

    /// A step in `d` stays within `i64`, and the distances to the objective
    /// before and after it fit in `u64`.
    pub open spec fn step_fits(self, d: Direction) -> bool {
        let p = self.player.location;
        let t = self.target();
        &&& can_step(p, d)
        &&& p.dist(t) <= u64::MAX
        &&& manhattan(p.x + d.dx(), p.y + d.dy(), t.x as int, t.y as int) <= u64::MAX
    }

    /// The machine limits allow `command` to be played.
    pub open spec fn fits(self, command: Command) -> bool {
        match command {
            Command::Go(d) => self.walls.open(d) ==> self.step_fits(d),
            Command::Quit => true,
        }
    }

    /// A turn up to the shifting of the walls: the walls are as they were.
    pub open spec fn moved(self, command: Command) -> (Game, TurnOutcome) {
        match command {
            Command::Quit => (Game { state: GameState::Quit, ..self }, TurnOutcome::Quit),
            Command::Go(d) => {
                if !self.walls.open(d) {
                    (self, TurnOutcome::Blocked)
                } else {
                    let t = self.target();
                    let p = self.stepped(d);
                    let last = self.player.location.dist(t);
                    let now = p.dist(t);
                    let player = Player { location: p, ..self.player };
                    if now == 0 && self.player.has_key {
                        (
                            Game { player, state: GameState::Escaped, ..self },
                            TurnOutcome::Escaped,
                        )
                    } else if now == 0 {
                        (
                            Game { player: Player { has_key: true, ..player }, ..self },
                            TurnOutcome::FoundKey,
                        )
                    } else {
                        (Game { player, ..self }, feedback(last, now))
                    }
                }
            },
        }
    }

    /// A whole turn on `command`, where the walls that shift take their
    /// values from `coins` (one per direction, North, South, East, West).
    pub open spec fn turn(self, command: Command, coins: Seq<bool>) -> (Game, TurnOutcome) {
        let (g, r) = self.moved(command);
        match command {
            Command::Go(d) => if walls_shift(r) {
                (Game { walls: regenerated(d, coins), ..g }, r)
            } else {
                (g, r)
            },
            Command::Quit => (g, r),
        }
    }

    /// A new game with the goals at the given points: the player at the
    /// origin without the key, every direction open.
    pub fn new(key_location: Point, exit_location: Point) -> (r: Game)
        ensures
            r.player == (Player { location: Point { x: 0, y: 0 }, has_key: false }),
            r.key_location == key_location,
            r.exit_location == exit_location,
            forall|d: Direction| r.walls.open(d),
            r.state == GameState::Playing,
    {
        Game {
            player: Player::new(),
            key_location,
            exit_location,
            walls: WallState::all_open(),
            state: GameState::Playing,
        }
    }

    /// A new game with the key and the exit each drawn at random in
    /// `[-5, 5] x [-5, 5]`.
    pub fn new_random() -> (r: Game)
        ensures
            r.player == (Player { location: Point { x: 0, y: 0 }, has_key: false }),
            -5 <= r.key_location.x <= 5 && -5 <= r.key_location.y <= 5,
            -5 <= r.exit_location.x <= 5 && -5 <= r.exit_location.y <= 5,
            forall|d: Direction| r.walls.open(d),
            r.state == GameState::Playing,
    {
        let key_location = Point { x: random_integer(-5, 5), y: random_integer(-5, 5) };
        let exit_location = Point { x: random_integer(-5, 5), y: random_integer(-5, 5) };
        Game::new(key_location, exit_location)
    }

    /// The point the player is heading for: the key, then the exit.
    pub fn objective(&self) -> (r: Point)
        ensures
            r == self.target(),
    {
        if self.player.has_key {
            self.exit_location
        } else {
            self.key_location
        }
    }

    /// Whether the machine limits allow `command` to be played.
    pub fn can_play(&self, command: Command) -> (r: bool)
        ensures
            r == self.fits(command),
    {
        match command {
            Command::Quit => true,
            Command::Go(d) => {
                if !self.walls.is_open(d) {
                    return true;
                }
                let (dx, dy) = d.step_vector();
                let p = self.player.location;
                let t = self.objective();
                let x = p.x as i128 + dx as i128;
                let y = p.y as i128 + dy as i128;
                let lo = i64::MIN as i128;
                let hi = i64::MAX as i128;
                let max = u64::MAX as i128;
                lo <= x && x <= hi && lo <= y && y <= hi && abs_i128(p.x as i128 - t.x as i128)
                    + abs_i128(p.y as i128 - t.y as i128) <= max && abs_i128(x - t.x as i128)
                    + abs_i128(y - t.y as i128) <= max
            },
        }
    }

    /// Everything of a turn but the shifting of the walls.
    fn advance(&mut self, command: Command) -> (r: TurnOutcome)
        requires
            old(self).fits(command),
        ensures
            (*final(self), r) == old(self).moved(command),
    {
        match command {
            Command::Quit => {
                self.state = GameState::Quit;
                TurnOutcome::Quit
            },
            Command::Go(direction) => {
                if !self.walls.is_open(direction) {
                    return TurnOutcome::Blocked;
                }
                let target = self.objective();
                let last_distance = self.player.location.distance(target);
                self.player.step(direction);
                let distance = self.player.location.distance(target);
                if distance == 0 {
                    if self.player.has_key {
                        self.state = GameState::Escaped;
                        TurnOutcome::Escaped
                    } else {
                        self.player.has_key = true;
                        TurnOutcome::FoundKey
                    }
                } else if distance < last_distance {
                    TurnOutcome::Closer
                } else if distance == last_distance {
                    TurnOutcome::AsFar
                } else {
                    TurnOutcome::Further
                }
            },
        }
    }

    /// Plays one turn on `command`. Where the walls shift, each direction
    /// but the way back takes its value from `coins` (indexed North, South,
    /// East, West).
    pub fn play_turn(&mut self, command: Command, coins: [bool; 4]) -> (r: TurnOutcome)
        requires
            old(self).state == GameState::Playing,
            old(self).fits(command),
        ensures
            (*final(self), r) == old(self).turn(command, coins@),
    {
        let r = self.advance(command);
        if let Command::Go(direction) = command {
            if shifts(r) {
                self.walls.regenerate_with(direction, coins);
            }
        }
        r
    }

    /// Plays one turn on `command`. Where the walls shift, each direction
    /// but the way back is open or blocked at random.
    pub fn play(&mut self, command: Command) -> (r: TurnOutcome)
        requires
            old(self).state == GameState::Playing,
            old(self).fits(command),
        ensures
            exists|coins: Seq<bool>|
                coins.len() == 4 && (*final(self), r) == #[trigger] old(self).turn(command, coins),
    {
        let ghost start = *self;
        let r = self.advance(command);
        if let Command::Go(direction) = command {
            if shifts(r) {
                self.walls.regenerate(direction);
                proof {
                    let coins = choose|coins: Seq<bool>|
                        coins.len() == 4 && self.walls == regenerated(direction, coins);
                    assert((*self, r) == start.turn(command, coins));
                }
                return r;
            }
        }
        proof {
            let coins = seq![true, true, true, true];
            assert((*self, r) == start.turn(command, coins));
        }
        r
    }
}

/// Whether the walls shift after a turn with outcome `r`.
fn shifts(r: TurnOutcome) -> (b: bool)
    ensures
        b == walls_shift(r),
{
    match r {
        TurnOutcome::FoundKey | TurnOutcome::Closer | TurnOutcome::AsFar
        | TurnOutcome::Further => true,
        _ => false,
    }
}

/// The absolute value of an `i128` that is not `i128::MIN`.
fn abs_i128(v: i128) -> (r: i128)
    requires
        v > i128::MIN,
    ensures
        r == abs(v as int),
{
    if v < 0 {
        -v
    } else {
        v
    }
}

/// A blocked move is no move: the game, the walls and the distance to the
/// objective are all as they were.
pub proof fn lemma_blocked_move_changes_nothing(g: Game, d: Direction, coins: Seq<bool>)
    requires
        !g.walls.open(d),
    ensures
        g.turn(Command::Go(d), coins) == (g, TurnOutcome::Blocked),
        ({
            let h = g.turn(Command::Go(d), coins).0;
            h.player.location.dist(h.target()) == g.player.location.dist(g.target())
        }),
{
}

/// The walls change only by a regeneration after an accepted step.
pub proof fn lemma_walls_change_only_by_regeneration(g: Game, command: Command, coins: Seq<bool>)
    ensures
        ({
            let (h, r) = g.turn(command, coins);
            h.walls != g.walls ==> (exists|d: Direction|
                command == Command::Go(d) && walls_shift(r) && h.walls == regenerated(d, coins))
        }),
{
    let (h, r) = g.turn(command, coins);
    if let Command::Go(d) = command {
        if h.walls != g.walls {
            assert(command == Command::Go(d) && walls_shift(r) && h.walls == regenerated(d, coins));
        }
    }
}

/// After every step that does not end the game, the way back is open.
pub proof fn lemma_way_back_open(g: Game, d: Direction, coins: Seq<bool>)
    requires
        coins.len() == 4,
    ensures
        ({
            let (h, r) = g.turn(Command::Go(d), coins);
            walls_shift(r) ==> h.walls.open(d.flip())
        }),
{
    crate::walls::lemma_backtrack_open(d, coins);
}

/// The game is escaped only by an accepted step onto the exit, taken while
/// already holding the key: the turn that finds the key never escapes, even
/// where the key and the exit share a point.
pub proof fn lemma_escape_needs_key_and_step(g: Game, command: Command, coins: Seq<bool>)
    requires
        g.state == GameState::Playing,
    ensures
        ({
            let (h, r) = g.turn(command, coins);
            &&& h.state == GameState::Escaped <==> r == TurnOutcome::Escaped
            &&& r == TurnOutcome::Escaped ==> (exists|d: Direction|
                command == Command::Go(d) && g.walls.open(d) && g.player.has_key
                    && h.player.location == g.exit_location)
            &&& r == TurnOutcome::FoundKey ==> h.state == GameState::Playing && h.player.has_key
                && !g.player.has_key && h.player.location == g.key_location
        }),
{
    let (h, r) = g.turn(command, coins);
    if let Command::Go(d) = command {
        if r == TurnOutcome::Escaped {
            crate::point::lemma_distance_zero_iff_equal(h.player.location, g.exit_location);
            assert(command == Command::Go(d) && g.walls.open(d) && g.player.has_key
                && h.player.location == g.exit_location);
        }
        if r == TurnOutcome::FoundKey {
            crate::point::lemma_distance_zero_iff_equal(h.player.location, g.key_location);
        }
    }
}

/// A turn never moves the goals, and the key, once held, is never lost.
pub proof fn lemma_goals_and_key_kept(g: Game, command: Command, coins: Seq<bool>)
    ensures
        ({
            let (h, r) = g.turn(command, coins);
            &&& h.key_location == g.key_location
            &&& h.exit_location == g.exit_location
            &&& g.player.has_key ==> h.player.has_key
        }),
{
}

} // verus!
