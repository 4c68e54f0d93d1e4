//! The text frame that shows the grid and the score.

use vstd::prelude::*;
use crate::game::{Game, GameView};
use crate::grid::{Entity, Kind, COLUMN, ROW};

verus! {

/// The glyph that shows a cell.
pub open spec fn glyph(k: Kind) -> char {
    match k {
        Kind::Food => '🍒',
        Kind::Player => '😳',
        Kind::Empty => '⚫',
    }
}

/// The glyph that shows a cell.
pub fn glyph_of(k: Kind) -> (r: char)
    ensures
        r == glyph(k),
{
    match k {
        Kind::Food => '🍒',
        Kind::Player => '😳',
        Kind::Empty => '⚫',
    }
}

/// The character of a decimal digit.
pub open spec fn digit(d: nat) -> char {
    ((d + 48) as u8) as char
}

/// The decimal writing of a number, without leading zeros.
pub open spec fn decimal(n: nat) -> Seq<char>
    decreases n,
{
    if n < 10 {
        seq![digit(n)]
    } else {
        decimal(n / 10).push(digit(n % 10))
    }
}

/// The glyphs of one row, in column order, and a line break.
pub open spec fn row_text(cells: Seq<Kind>, y: int) -> Seq<char> {
    Seq::new(COLUMN as nat, |x: int| glyph(cells[y * COLUMN + x])).push('\n')
}

/// The first `n` rows, in order.
pub open spec fn rows_text(cells: Seq<Kind>, n: nat) -> Seq<char>
    decreases n,
{
    if n == 0 {
        Seq::empty()
    } else {
        rows_text(cells, (n - 1) as nat) + row_text(cells, n - 1)
    }
}

/// The terminal sequence that clears the screen and homes the cursor.
pub open spec fn clear_screen() -> Seq<char> {
    seq!['\x1B', '[', '2', 'J', '\x1B', '[', '1', ';', '1', 'H']
}

/// The text before the score.
pub open spec fn score_label() -> Seq<char> {
    seq!['S', 'C', 'O', 'R', 'E', ':', ' ']
}

/// A full frame: the clear-screen sequence, one line per row, then the
/// score line.
pub open spec fn frame_of(g: GameView) -> Seq<char> {
    clear_screen() + rows_text(g.cells, ROW as nat) + score_label() + decimal(g.score)
}

/// Appends the characters of `s`.
fn push_all(out: &mut Vec<char>, s: &[char])
    ensures
        final(out)@ == old(out)@ + s@,
{
    let mut i: usize = 0;
    while i < s.len()
        invariant
            i <= s@.len(),
            out@ == old(out)@ + s@.subrange(0, i as int),
        decreases s@.len() - i,
    {
        out.push(s[i]);
        i = i + 1;
        proof {
            assert(out@ =~= old(out)@ + s@.subrange(0, i as int));
        }
    }
    proof {
        assert(s@.subrange(0, s@.len() as int) =~= s@);
    }
}

/// Appends the decimal writing of `n`.
pub fn push_decimal(out: &mut Vec<char>, n: u64)
    ensures
        final(out)@ == old(out)@ + decimal(n as nat),
    decreases n,
{
    if n >= 10 {
        push_decimal(out, n / 10);
    }
    let d = (n % 10) as u8;
    out.push((d + 48) as char);
    proof {
        assert(out@ =~= old(out)@ + decimal(n as nat));
    }
}

impl Game {
    /// The frame that shows the game: the clear-screen sequence, each row's
    /// glyphs on a line of its own, then `SCORE: ` and the score.
    pub fn frame(&self) -> (r: Vec<char>)
        requires
            self.wf(),
        ensures
            r@ == frame_of(self@),
    {
        let mut out: Vec<char> = Vec::new();
        push_all(&mut out, &['\x1B', '[', '2', 'J', '\x1B', '[', '1', ';', '1', 'H']);
        assert(out@ =~= clear_screen());
        let mut y: u8 = 0;
        while y < ROW
            invariant
                self.wf(),
                y <= ROW,
                out@ == clear_screen() + rows_text(self@.cells, y as nat),
            decreases ROW - y,
        {
            let ghost start = out@;
            let mut x: u8 = 0;
            while x < COLUMN
                invariant
                    self.wf(),
                    y < ROW,
                    x <= COLUMN,
                    out@ == start + Seq::new(
                        x as nat,
                        |i: int| glyph(self@.cells[y * COLUMN + i]),
                    ),
                decreases COLUMN - x,
            {
                let k = self.at(Entity::new(x, y));
                out.push(glyph_of(k));
                x = x + 1;
                proof {
                    assert(out@ =~= start + Seq::new(
                        x as nat,
                        |i: int| glyph(self@.cells[y * COLUMN + i]),
                    ));
                }
            }
            out.push('\n');
            y = y + 1;
            proof {
                assert(out@ =~= clear_screen() + rows_text(self@.cells, y as nat));
            }
        }
        push_all(&mut out, &['S', 'C', 'O', 'R', 'E', ':', ' ']);
        push_decimal(&mut out, self.score());
        proof {
            assert(out@ =~= frame_of(self@));
        }
        out
    }
}

} // verus!
