//! The game state: the grid, the player, the item and the score, and the
//! moves that change them.

use vstd::prelude::*;
use crate::command::{command_of, Command};
use crate::grid::{
    lemma_index_injective, lemma_step_in_bounds, next_position, step, Entity, Kind, Position, CELLS,
};

verus! {

/// The abstract state of a game.
pub struct GameView {
    /// The grid, row-major, `CELLS` cells.
    pub cells: Seq<Kind>,
    pub player: Entity,
    pub food: Entity,
    pub score: nat,
}

/// The grid that matches a player and an item: the player's cell holds the
/// player (also where the item lies), the item's cell holds the item, and
/// every other cell is empty.
pub open spec fn layout(player: Entity, food: Entity) -> Seq<Kind> {
    Seq::new(
        CELLS as nat,
        |i: int|
            if i == player.index() {
                Kind::Player
            } else if i == food.index() {
                Kind::Food
            } else {
                Kind::Empty
            },
    )
}

impl GameView {
    /// Both coordinates lie on the grid and the grid agrees with them.
    pub open spec fn wf(self) -> bool {
        &&& self.player.in_bounds()
        &&& self.food.in_bounds()
        &&& self.cells == layout(self.player, self.food)
    }
}

/// The state after one move: the player steps in the direction, the grid
/// follows, and the score grows by one when the player lands on the item.
/// The item stays where it is.
pub open spec fn moved(g: GameView, dir: Position) -> GameView {
    let p = step(g.player, dir);
    GameView {
        cells: layout(p, g.food),
        player: p,
        food: g.food,
        score: if p == g.food {
            g.score + 1
        } else {
            g.score
        },
    }
}

/// The state after a sequence of moves, made in order.
pub open spec fn run(g: GameView, dirs: Seq<Position>) -> GameView
    decreases dirs.len(),
{
    if dirs.len() == 0 {
        g
    } else {
        moved(run(g, dirs.drop_last()), dirs.last())
    }
}

/// The indices of the cells that hold the given kind.
pub open spec fn cells_holding(cells: Seq<Kind>, k: Kind) -> Set<int> {
    Set::new(|i: int| 0 <= i < cells.len() && cells[i] == k)
}

/// The indices of the cells that are not empty.
pub open spec fn occupied(cells: Seq<Kind>) -> Set<int> {
    Set::new(|i: int| 0 <= i < cells.len() && cells[i] != Kind::Empty)
}

/// In the grid that matches a player and an item, exactly the player's cell
/// holds the player, and the occupied cells are the player's and the item's.
pub proof fn lemma_layout_cells(player: Entity, food: Entity)
    requires
        player.in_bounds(),
        food.in_bounds(),
    ensures
        cells_holding(layout(player, food), Kind::Player) == set![player.index()],
        occupied(layout(player, food)) == set![player.index(), food.index()],
        occupied(layout(player, food)).len() <= 2,
        player == food ==> occupied(layout(player, food)).len() == 1,
{
    lemma_index_injective(player, food);
    let cells = layout(player, food);
    assert(cells_holding(cells, Kind::Player) =~= set![player.index()]);
    assert(occupied(cells) =~= set![player.index(), food.index()]);
    if player == food {
        assert(set![player.index(), food.index()] =~= set![player.index()]);
    }
}

/// A move from a well-formed state leads to a well-formed state.
pub proof fn lemma_moved_wf(g: GameView, dir: Position)
    requires
        g.wf(),
    ensures
        moved(g, dir).wf(),
{
    lemma_step_in_bounds(g.player, dir);
}

/// Grid consistency: after any sequence of moves from a well-formed state,
/// the grid still agrees with the player and the item, exactly one cell
/// holds the player, and at most two cells are occupied, one alone when the
/// player stands on the item.
pub proof fn lemma_grid_consistent(g: GameView, dirs: Seq<Position>)
    requires
        g.wf(),
    ensures
        run(g, dirs).wf(),
        cells_holding(run(g, dirs).cells, Kind::Player) == set![run(g, dirs).player.index()],
        occupied(run(g, dirs).cells).len() <= 2,
        run(g, dirs).player == run(g, dirs).food ==> occupied(run(g, dirs).cells).len() == 1,
    decreases dirs.len(),
{
    if dirs.len() > 0 {
        lemma_grid_consistent(g, dirs.drop_last());
        lemma_moved_wf(run(g, dirs.drop_last()), dirs.last());
    }
    let h = run(g, dirs);
    lemma_layout_cells(h.player, h.food);
}

/// The score never decreases over any sequence of moves, and the item
/// stays where it was.
pub proof fn lemma_score_monotone(g: GameView, dirs: Seq<Position>)
    ensures
        run(g, dirs).score >= g.score,
        run(g, dirs).food == g.food,
    decreases dirs.len(),
{
    if dirs.len() > 0 {
        lemma_score_monotone(g, dirs.drop_last());
    }
}

/// What the input loop does after a command has been handled.
#[derive(Clone, Copy, Debug, PartialEq, Eq, Structural)]
pub enum Outcome {
    /// The state changed: draw the frame again, then wait for input.
    Redraw,
    /// Nothing changed: ask for input again without drawing.
    Reprompt,
    /// Stop the game.
    Quit,
}

/// The state after a command: a move moves, anything else changes nothing.
pub open spec fn apply(g: GameView, cmd: Command) -> GameView {
    match cmd {
        Command::Move(dir) => moved(g, dir),
        _ => g,
    }
}

/// What the input loop does after a command.
pub open spec fn outcome_of(cmd: Command) -> Outcome {
    match cmd {
        Command::Move(_) => Outcome::Redraw,
        Command::Quit => Outcome::Quit,
        Command::Unrecognized => Outcome::Reprompt,
    }
}

/// A token that is none of the five command tokens leaves the grid, the
/// player, the item and the score as they were, and asks for input again.
pub proof fn lemma_unrecognized_token_inert(g: GameView, t: Seq<char>)
    requires
        t != seq!['a'],
        t != seq!['d'],
        t != seq!['w'],
        t != seq!['s'],
        t != seq!['e'],
    ensures
        apply(g, command_of(t)) == g,
        outcome_of(command_of(t)) == Outcome::Reprompt,
{
}

/// The state of a game in progress.
pub struct Game {
    area: Vec<Kind>,
    player: Entity,
    food: Entity,
    score: u64,
}

impl View for Game {
    type V = GameView;

    closed spec fn view(&self) -> GameView {
        GameView { cells: self.area@, player: self.player, food: self.food, score: self.score as nat }
    }
}

impl Game {
    /// The grid agrees with the player and the item, both on the grid.
    pub open spec fn wf(&self) -> bool {
        self@.wf()
    }

    /// A game with the player at (5, 5), the item at (7, 3) and score 0.
    pub fn new() -> (r: Game)
        ensures
            r.wf(),
            r@.player == (Entity { x: 5, y: 5 }),
            r@.food == (Entity { x: 7, y: 3 }),
            r@.score == 0,
    {
        Game::with_positions(Entity::new(5, 5), Entity::new(7, 3))
    }

    /// A game with the player and the item placed on an otherwise empty grid,
    /// and score 0.
    pub fn with_positions(player: Entity, food: Entity) -> (r: Game)
        requires
            player.in_bounds(),
            food.in_bounds(),
        ensures
            r.wf(),
            r@.player == player,
            r@.food == food,
            r@.score == 0,
    {
        let mut area: Vec<Kind> = Vec::new();
        let mut i: usize = 0;
        while i < CELLS
            invariant
                i <= CELLS,
                area@ =~= Seq::new(i as nat, |j: int| Kind::Empty),
            decreases CELLS - i,
        {
            area.push(Kind::Empty);
            i = i + 1;
        }
        let fi = food.cell_index();
        area[fi] = Kind::Food;
        let pi = player.cell_index();
        area[pi] = Kind::Player;
        proof {
            lemma_index_injective(player, food);
            assert(area@ =~= layout(player, food));
        }
        Game { area, player, food, score: 0 }
    }

    pub fn player(&self) -> (r: Entity)
        ensures
            r == self@.player,
    {
        self.player
    }

    pub fn food(&self) -> (r: Entity)
        ensures
            r == self@.food,
    {
        self.food
    }

    pub fn score(&self) -> (r: u64)
        ensures
            r == self@.score,
    {
        self.score
    }

    /// What the cell at the coordinate holds.
    pub fn at(&self, pos: Entity) -> (r: Kind)
        requires
            self.wf(),
            pos.in_bounds(),
        ensures
            r == self@.cells[pos.index()],
    {
        self.area[pos.cell_index()]
    }

    /// Moves the player one step in the direction, wrapping at the edges,
    /// and counts a point when it lands on the item. The cell the player
    /// leaves becomes empty, or shows the item again where the item lies.
    pub fn update_player_position(&mut self, position: Position)
        requires
            old(self).wf(),
            old(self)@.score < u64::MAX,
        ensures
            final(self).wf(),
            final(self)@ == moved(old(self)@, position),
    {
        let cur = self.player;
        let ci = cur.cell_index();
        if cur == self.food {
            self.area[ci] = Kind::Food;
        } else {
            self.area[ci] = Kind::Empty;
        }
        let np = next_position(cur, position);
        let ni = np.cell_index();
        self.area[ni] = Kind::Player;
        self.player = np;
        if np == self.food {
            self.score = self.score + 1;
        }
        proof {
            lemma_index_injective(cur, self.food);
            lemma_index_injective(np, self.food);
            lemma_index_injective(np, cur);
            assert(self.area@ =~= layout(np, self.food));
        }
    }

    /// Handles one command: a move moves the player and asks for a redraw;
    /// quitting changes nothing and stops; anything else changes nothing and
    /// asks for input again.
    pub fn handle(&mut self, cmd: Command) -> (r: Outcome)
        requires
            old(self).wf(),
            cmd is Move ==> old(self)@.score < u64::MAX,
        ensures
            final(self).wf(),
            final(self)@ == apply(old(self)@, cmd),
            r == outcome_of(cmd),
    {
        match cmd {
            Command::Move(dir) => {
                self.update_player_position(dir);
                Outcome::Redraw
            },
            Command::Quit => Outcome::Quit,
            Command::Unrecognized => Outcome::Reprompt,
        }
    }
}

} // verus!
