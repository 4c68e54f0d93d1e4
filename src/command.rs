//! Reading a command from a line of input.

use vstd::prelude::*;
use crate::grid::Position;

verus! {

/// What a line of input asks for.
#[derive(Clone, Copy, Debug, PartialEq, Eq, Structural)]
pub enum Command {
    Move(Position),
    Quit,
    Unrecognized,
}

/// The command that a token names: `a`, `d`, `w` and `s` move left, right,
/// up and down, `e` quits, and everything else is unrecognized.
pub open spec fn command_of(t: Seq<char>) -> Command {
    if t == seq!['a'] {
        Command::Move(Position::Left)
    } else if t == seq!['d'] {
        Command::Move(Position::Right)
    } else if t == seq!['w'] {
        Command::Move(Position::Up)
    } else if t == seq!['s'] {
        Command::Move(Position::Down)
    } else if t == seq!['e'] {
        Command::Quit
    } else {
        Command::Unrecognized
    }
}

/// A line with its leading and trailing whitespace removed.
pub uninterp spec fn trimmed(s: Seq<char>) -> Seq<char>;

/// Relies on str::trim: the result depends on the characters of the line
/// alone.
#[verifier::external_body]
fn trim_line(s: &str) -> (r: &str)
    ensures
        r@ == trimmed(s@),
{
    s.trim()
}

/// The command that a token names, the token taken as it is.
pub fn parse_command(token: &str) -> (r: Command)
    ensures
        r == command_of(token@),
{
    if token.unicode_len() != 1 {
        return Command::Unrecognized;
    }
    let c = token.get_char(0);
    proof {
        assert(token@ =~= seq![c]);
    }
    if c == 'a' {
        Command::Move(Position::Left)
    } else if c == 'd' {
        Command::Move(Position::Right)
    } else if c == 'w' {
        Command::Move(Position::Up)
    } else if c == 's' {
        Command::Move(Position::Down)
    } else if c == 'e' {
        Command::Quit
    } else {
        Command::Unrecognized
    }
}

/// The command that a line of input names, once trimmed of surrounding
/// whitespace.
pub fn read_command(line: &str) -> (r: Command)
    ensures
        r == command_of(trimmed(line@)),
{
    parse_command(trim_line(line))
}

} // verus!
