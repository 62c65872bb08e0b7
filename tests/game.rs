use mazegame::command::{parse_command, Command, InputError};
use mazegame::direction::Direction;
use mazegame::game::{Game, GameState, TurnOutcome};
use mazegame::point::Point;

const OPEN: [bool; 4] = [true, true, true, true];

#[test]
fn parse_directions_any_case() {
    assert_eq!(parse_command("n"), Ok(Command::Go(Direction::North)));
    assert_eq!(parse_command("N"), Ok(Command::Go(Direction::North)));
    assert_eq!(parse_command("s"), Ok(Command::Go(Direction::South)));
    assert_eq!(parse_command("S"), Ok(Command::Go(Direction::South)));
    assert_eq!(parse_command("e"), Ok(Command::Go(Direction::East)));
    assert_eq!(parse_command("E"), Ok(Command::Go(Direction::East)));
    assert_eq!(parse_command("w"), Ok(Command::Go(Direction::West)));
    assert_eq!(parse_command("W"), Ok(Command::Go(Direction::West)));
}

#[test]
fn parse_quit_any_case() {
    assert_eq!(parse_command("q"), Ok(Command::Quit));
    assert_eq!(parse_command("Q"), Ok(Command::Quit));
}

#[test]
fn parse_rejects_wrong_length() {
    assert_eq!(parse_command(""), Err(InputError::WrongLength));
    assert_eq!(parse_command("nn"), Err(InputError::WrongLength));
    assert_eq!(parse_command("north"), Err(InputError::WrongLength));
}

#[test]
fn parse_rejects_other_characters() {
    assert_eq!(parse_command("x"), Err(InputError::NotADirection));
    assert_eq!(parse_command("1"), Err(InputError::NotADirection));
    assert_eq!(parse_command("?"), Err(InputError::NotADirection));
    assert_eq!(parse_command("\u{e9}"), Err(InputError::NotADirection));
    assert_eq!(parse_command("\u{144}"), Err(InputError::NotADirection));
}

#[test]
fn new_game_starts_playing_at_origin() {
    let g = Game::new(Point { x: 2, y: 3 }, Point { x: -1, y: 4 });
    assert_eq!(g.player.location, Point { x: 0, y: 0 });
    assert!(!g.player.has_key);
    assert_eq!(g.state, GameState::Playing);
    assert_eq!(g.objective(), Point { x: 2, y: 3 });
    for d in Direction::all() {
        assert!(g.walls.is_open(d));
    }
}

#[test]
fn new_random_goals_in_range() {
    for _ in 0..500 {
        let g = Game::new_random();
        for p in [g.key_location, g.exit_location] {
            assert!((-5..=5).contains(&p.x));
            assert!((-5..=5).contains(&p.y));
        }
        assert_eq!(g.player.location, Point { x: 0, y: 0 });
        assert_eq!(g.state, GameState::Playing);
    }
}

#[test]
fn stepping_onto_key_finds_it() {
    let mut g = Game::new(Point { x: 1, y: 0 }, Point { x: -4, y: -4 });
    let r = g.play_turn(Command::Go(Direction::East), [false, false, false, false]);
    assert_eq!(r, TurnOutcome::FoundKey);
    assert!(g.player.has_key);
    assert_eq!(g.state, GameState::Playing);
    assert_eq!(g.objective(), Point { x: -4, y: -4 });
    assert!(g.walls.is_open(Direction::West));
    assert!(!g.walls.is_open(Direction::North));
}

#[test]
fn key_and_exit_on_same_point_need_another_step() {
    let mut g = Game::new(Point { x: 1, y: 0 }, Point { x: 1, y: 0 });
    assert_eq!(g.play_turn(Command::Go(Direction::East), OPEN), TurnOutcome::FoundKey);
    assert_eq!(g.state, GameState::Playing);
    assert!(g.player.has_key);
    g.walls.regenerate_with(Direction::West, [false, false, false, false]);
    assert_eq!(g.play_turn(Command::Go(Direction::West), OPEN), TurnOutcome::Blocked);
    assert_eq!(g.state, GameState::Playing);
    g.walls.regenerate_with(Direction::East, OPEN);
    assert_eq!(g.play_turn(Command::Go(Direction::West), OPEN), TurnOutcome::Further);
    assert_eq!(g.state, GameState::Playing);
    assert_eq!(g.play_turn(Command::Go(Direction::East), OPEN), TurnOutcome::Escaped);
    assert_eq!(g.state, GameState::Escaped);
    assert_eq!(g.player.location, Point { x: 1, y: 0 });
}

#[test]
fn quit_ends_the_game() {
    for input in ["q", "Q"] {
        let mut g = Game::new(Point { x: 3, y: 0 }, Point { x: 0, y: 3 });
        let before = g;
        let command = parse_command(input).unwrap();
        assert_eq!(g.play_turn(command, OPEN), TurnOutcome::Quit);
        assert_eq!(g.state, GameState::Quit);
        assert_eq!(g.player, before.player);
        assert_eq!(g.walls, before.walls);
    }
}

#[test]
fn blocked_move_changes_nothing() {
    let mut g = Game::new(Point { x: 0, y: 3 }, Point { x: 3, y: 3 });
    g.walls.regenerate_with(Direction::West, [false, true, false, true]);
    assert!(!g.walls.is_open(Direction::North));
    let before = g;
    let last = g.player.location.distance(g.objective());
    let command = parse_command("n").unwrap();
    assert_eq!(g.play_turn(command, OPEN), TurnOutcome::Blocked);
    assert_eq!(g, before);
    assert_eq!(g.player.location.distance(g.objective()), last);
    assert_eq!(g.play(command), TurnOutcome::Blocked);
    assert_eq!(g, before);
}

#[test]
fn feedback_closer_same_further() {
    let mut g = Game::new(Point { x: 3, y: 0 }, Point { x: 0, y: 0 });
    assert_eq!(g.play_turn(Command::Go(Direction::East), OPEN), TurnOutcome::Closer);
    assert_eq!(g.play_turn(Command::Go(Direction::North), OPEN), TurnOutcome::Further);
    assert_eq!(g.play_turn(Command::Go(Direction::South), OPEN), TurnOutcome::Closer);
    assert_eq!(g.play_turn(Command::Go(Direction::West), OPEN), TurnOutcome::Further);
    assert_eq!(g.player.location, Point { x: 0, y: 0 });
    assert!(!g.player.has_key);
}

#[test]
fn walls_shift_after_accepted_step() {
    let mut g = Game::new(Point { x: 5, y: 5 }, Point { x: 0, y: 0 });
    let r = g.play_turn(Command::Go(Direction::North), [true, false, false, false]);
    assert_eq!(r, TurnOutcome::Closer);
    assert!(g.walls.is_open(Direction::North));
    assert!(g.walls.is_open(Direction::South));
    assert!(!g.walls.is_open(Direction::East));
    assert!(!g.walls.is_open(Direction::West));
}

#[test]
fn random_play_keeps_way_back_open() {
    let mut g = Game::new(Point { x: 100, y: 100 }, Point { x: 0, y: 0 });
    for _ in 0..200 {
        let r = g.play(Command::Go(Direction::North));
        assert_eq!(r, TurnOutcome::Closer);
        assert!(g.walls.is_open(Direction::South));
        g.walls.regenerate_with(Direction::South, OPEN);
        assert_eq!(g.play(Command::Go(Direction::South)), TurnOutcome::Further);
        assert!(g.walls.is_open(Direction::North));
        g.walls.regenerate_with(Direction::North, OPEN);
    }
}

#[test]
fn can_play_refuses_overflowing_step() {
    let mut g = Game::new(Point { x: 0, y: 0 }, Point { x: 0, y: 0 });
    g.player.location = Point { x: i64::MAX, y: 0 };
    assert!(!g.can_play(Command::Go(Direction::East)));
    assert!(g.can_play(Command::Go(Direction::West)));
    g.player.location = Point { x: 7, y: -2 };
    assert!(g.can_play(Command::Go(Direction::East)));
    assert!(g.can_play(Command::Quit));
    g.walls.regenerate_with(Direction::East, [true, true, false, true]);
    g.player.location = Point { x: i64::MAX, y: 0 };
    assert!(g.can_play(Command::Go(Direction::East)));
}
