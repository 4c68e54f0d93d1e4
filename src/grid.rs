//! Coordinates on the wrap-around grid and the movement rule.

use vstd::prelude::*;

verus! {

/// Number of rows of the grid.
pub const ROW: u8 = 11;

/// Number of columns of the grid.
pub const COLUMN: u8 = 11;

/// Number of cells of the grid.
pub const CELLS: usize = 121;

/// What a cell of the grid holds.
#[derive(Clone, Copy, Debug, PartialEq, Eq, Structural)]
pub enum Kind {
    Food,
    Player,
    Empty,
}

/// A direction of movement; each moves one step along one axis.
#[derive(Clone, Copy, Debug, PartialEq, Eq, Structural)]
pub enum Position {
    Left,
    Right,
    Up,
    Down,
}

/// A coordinate: `x` is the column, `y` the row.
#[derive(Clone, Copy, Debug, PartialEq, Eq, Structural)]
pub struct Entity {
    pub x: u8,
    pub y: u8,
}

impl Entity {
    /// The coordinate lies on the grid.
    pub open spec fn in_bounds(self) -> bool {
        self.x < COLUMN && self.y < ROW
    }

    /// Row-major position of the cell in the flat grid.
    pub open spec fn index(self) -> int {
        self.y * COLUMN + self.x
    }

    pub fn new(x: u8, y: u8) -> (r: Entity)
        ensures
            r.x == x,
            r.y == y,
    {
        Entity { x, y }
    }

    /// Row-major position of the cell in the flat grid.
    pub fn cell_index(&self) -> (r: usize)
        requires
            self.in_bounds(),
        ensures
            r == self.index(),
            r < CELLS,
    {
        proof {
            assert(self.y * COLUMN <= 10 * 11) by (nonlinear_arith)
                requires
                    self.y < 11,
                    COLUMN == 11,
            ;
        }
        self.y as usize * COLUMN as usize + self.x as usize
    }
}

/// One step down an axis of the given bound, wrapping from 0 to the far edge.
pub open spec fn wrap_dec(v: int, bound: int) -> int {
    if v == 0 {
        bound - 1
    } else {
        v - 1
    }
}

/// One step up an axis of the given bound, wrapping from the far edge to 0.
pub open spec fn wrap_inc(v: int, bound: int) -> int {
    if v == bound - 1 {
        0
    } else {
        v + 1
    }
}

/// The coordinate one step away in the given direction; Up and Down change
/// the row, Left and Right the column.
pub open spec fn step(p: Entity, dir: Position) -> Entity {
    match dir {
        Position::Left => Entity { x: wrap_dec(p.x as int, COLUMN as int) as u8, y: p.y },
        Position::Right => Entity { x: wrap_inc(p.x as int, COLUMN as int) as u8, y: p.y },
        Position::Up => Entity { x: p.x, y: wrap_dec(p.y as int, ROW as int) as u8 },
        Position::Down => Entity { x: p.x, y: wrap_inc(p.y as int, ROW as int) as u8 },
    }
}

/// Index into the flat grid of two coordinates on it is the same only for the
/// same coordinate.
pub proof fn lemma_index_injective(a: Entity, b: Entity)
    requires
        a.in_bounds(),
        b.in_bounds(),
    ensures
        0 <= a.index() < CELLS,
        (a.index() == b.index()) <==> (a == b),
{
}

/// A move from a coordinate on the grid stays on the grid, whatever the
/// direction.
pub proof fn lemma_step_in_bounds(p: Entity, dir: Position)
    requires
        p.in_bounds(),
    ensures
        step(p, dir).in_bounds(),
{
}

/// The coordinate after one move: on the grid for every coordinate on the
/// grid and every direction.
pub fn next_position(p: Entity, dir: Position) -> (r: Entity)
    requires
        p.in_bounds(),
    ensures
        r == step(p, dir),
        r.in_bounds(),
{
    match dir {
        Position::Left => {
            let nx = if p.x != 0 { p.x - 1 } else { COLUMN - 1 };
            Entity { x: nx, y: p.y }
        },
        Position::Right => {
            let nx = if p.x != COLUMN - 1 { p.x + 1 } else { 0 };
            Entity { x: nx, y: p.y }
        },
        Position::Up => {
            let ny = if p.y != 0 { p.y - 1 } else { ROW - 1 };
            Entity { x: p.x, y: ny }
        },
        Position::Down => {
            let ny = if p.y != ROW - 1 { p.y + 1 } else { 0 };
            Entity { x: p.x, y: ny }
        },
    }
}

} // verus!
