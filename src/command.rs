use vstd::prelude::*;
use crate::direction::Direction;

verus! {

/// What the player asked for at the prompt.
#[derive(Clone, Copy, Debug, PartialEq, Eq, Structural)]
pub enum Command {
    Go(Direction),
    Quit,
}

/// Why a line of input was rejected.
#[derive(Clone, Copy, Debug, PartialEq, Eq, Structural)]
pub enum InputError {
    /// The input is not exactly one character long.
    WrongLength,
    /// The input is one character, but not one of N, S, E, W or Q.
    NotADirection,
}

/// The command that a single character stands for, case-insensitively.
pub open spec fn command_of_char(c: char) -> Option<Command> {
    if c == 'n' || c == 'N' {
        Some(Command::Go(Direction::North))
    } else if c == 's' || c == 'S' {
        Some(Command::Go(Direction::South))
    } else if c == 'e' || c == 'E' {
        Some(Command::Go(Direction::East))
    } else if c == 'w' || c == 'W' {
        Some(Command::Go(Direction::West))
    } else if c == 'q' || c == 'Q' {
        Some(Command::Quit)
    } else {
        None
    }
}

/// How a (trimmed) line of input is read: it must be exactly one character,
/// naming a direction or asking to quit.
pub open spec fn parsed_command(s: Seq<char>) -> Result<Command, InputError> {
    if s.len() != 1 {
        Err(InputError::WrongLength)
    } else {
        match command_of_char(s[0]) {
            Some(c) => Ok(c),
            None => Err(InputError::NotADirection),
        }
    }
}

/// Reads a command from a trimmed line of input.
pub fn parse_command(input: &str) -> (r: Result<Command, InputError>)
    ensures
        r == parsed_command(input@),
{
    if input.unicode_len() != 1 {
        return Err(InputError::WrongLength);
    }
    let c = input.get_char(0);
    if c == 'n' || c == 'N' {
        Ok(Command::Go(Direction::North))
    } else if c == 's' || c == 'S' {
        Ok(Command::Go(Direction::South))
    } else if c == 'e' || c == 'E' {
        Ok(Command::Go(Direction::East))
    } else if c == 'w' || c == 'W' {
        Ok(Command::Go(Direction::West))
    } else if c == 'q' || c == 'Q' {
        Ok(Command::Quit)
    } else {
        Err(InputError::NotADirection)
    }
}

} // verus!
