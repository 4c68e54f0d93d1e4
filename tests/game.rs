use grid_game::command::{parse_command, read_command, Command};
use grid_game::game::{Game, Outcome};
use grid_game::grid::{next_position, Entity, Kind, Position, CELLS, COLUMN, ROW};
use grid_game::render::{glyph_of, push_decimal};

fn frame_string(g: &Game) -> String {
    g.frame().iter().collect()
}

fn count_cells(g: &Game, k: Kind) -> usize {
    let mut n = 0;
    for y in 0..ROW {
        for x in 0..COLUMN {
            if g.at(Entity::new(x, y)) == k {
                n += 1;
            }
        }
    }
    n
}

fn occupied_cells(g: &Game) -> usize {
    count_cells(g, Kind::Player) + count_cells(g, Kind::Food)
}

#[test]
fn scenario_a_collects_item() {
    let mut g = Game::new();
    assert_eq!(g.player(), Entity::new(5, 5));
    assert_eq!(g.food(), Entity::new(7, 3));
    g.update_player_position(Position::Right);
    g.update_player_position(Position::Right);
    assert_eq!(g.score(), 0);
    g.update_player_position(Position::Up);
    assert_eq!(g.score(), 0);
    g.update_player_position(Position::Up);
    assert_eq!(g.player(), Entity::new(7, 3));
    assert_eq!(g.score(), 1);
}

#[test]
fn scenario_b_left_wraps_to_last_column() {
    let mut g = Game::with_positions(Entity::new(0, 4), Entity::new(7, 3));
    g.update_player_position(Position::Left);
    assert_eq!(g.player(), Entity::new(10, 4));
    assert_eq!(g.at(Entity::new(10, 4)), Kind::Player);
    assert_eq!(g.at(Entity::new(0, 4)), Kind::Empty);
}

#[test]
fn scenario_c_down_wraps_to_first_row() {
    let mut g = Game::with_positions(Entity::new(3, 10), Entity::new(7, 3));
    g.update_player_position(Position::Down);
    assert_eq!(g.player(), Entity::new(3, 0));
    assert_eq!(g.at(Entity::new(3, 0)), Kind::Player);
    assert_eq!(g.at(Entity::new(3, 10)), Kind::Empty);
}

#[test]
fn scenario_d_quit_changes_nothing() {
    let mut g = Game::new();
    let before = frame_string(&g);
    let r = g.handle(read_command("e\n"));
    assert_eq!(r, Outcome::Quit);
    assert_eq!(g.player(), Entity::new(5, 5));
    assert_eq!(g.food(), Entity::new(7, 3));
    assert_eq!(g.score(), 0);
    assert_eq!(frame_string(&g), before);
}

#[test]
fn up_wraps_to_last_row_and_right_to_first_column() {
    assert_eq!(next_position(Entity::new(4, 0), Position::Up), Entity::new(4, 10));
    assert_eq!(next_position(Entity::new(10, 6), Position::Right), Entity::new(0, 6));
    assert_eq!(next_position(Entity::new(4, 6), Position::Up), Entity::new(4, 5));
    assert_eq!(next_position(Entity::new(4, 6), Position::Down), Entity::new(4, 7));
    assert_eq!(next_position(Entity::new(4, 6), Position::Left), Entity::new(3, 6));
    assert_eq!(next_position(Entity::new(4, 6), Position::Right), Entity::new(5, 6));
}

#[test]
fn every_move_stays_on_grid() {
    let dirs = [Position::Left, Position::Right, Position::Up, Position::Down];
    for y in 0..ROW {
        for x in 0..COLUMN {
            for d in dirs {
                let p = next_position(Entity::new(x, y), d);
                assert!(p.x < COLUMN && p.y < ROW);
            }
        }
    }
}

#[test]
fn unrecognized_input_changes_nothing() {
    let mut g = Game::new();
    g.update_player_position(Position::Right);
    let before = frame_string(&g);
    for line in ["", "  \n", "x", "ab", "A", "q", "aa", "left"] {
        let cmd = read_command(line);
        assert_eq!(cmd, Command::Unrecognized);
        assert_eq!(g.handle(cmd), Outcome::Reprompt);
        assert_eq!(g.player(), Entity::new(6, 5));
        assert_eq!(g.food(), Entity::new(7, 3));
        assert_eq!(g.score(), 0);
        assert_eq!(frame_string(&g), before);
    }
}

#[test]
fn tokens_name_their_commands() {
    assert_eq!(parse_command("a"), Command::Move(Position::Left));
    assert_eq!(parse_command("d"), Command::Move(Position::Right));
    assert_eq!(parse_command("w"), Command::Move(Position::Up));
    assert_eq!(parse_command("s"), Command::Move(Position::Down));
    assert_eq!(parse_command("e"), Command::Quit);
    assert_eq!(parse_command(" a"), Command::Unrecognized);
    assert_eq!(parse_command(""), Command::Unrecognized);
}

#[test]
fn lines_are_trimmed_before_parsing() {
    assert_eq!(read_command("  a \n"), Command::Move(Position::Left));
    assert_eq!(read_command("\tw\r\n"), Command::Move(Position::Up));
    assert_eq!(read_command("s\n"), Command::Move(Position::Down));
    assert_eq!(read_command(" e "), Command::Quit);
}

#[test]
fn move_command_moves_and_redraws() {
    let mut g = Game::new();
    assert_eq!(g.handle(read_command("d\n")), Outcome::Redraw);
    assert_eq!(g.player(), Entity::new(6, 5));
}

#[test]
fn grid_stays_consistent_over_moves() {
    let mut g = Game::new();
    assert_eq!(count_cells(&g, Kind::Player), 1);
    assert_eq!(occupied_cells(&g), 2);
    let path = [
        Position::Right,
        Position::Right,
        Position::Up,
        Position::Up,
        Position::Left,
        Position::Up,
        Position::Up,
        Position::Up,
        Position::Up,
        Position::Down,
        Position::Right,
        Position::Down,
    ];
    for d in path {
        g.update_player_position(d);
        assert_eq!(count_cells(&g, Kind::Player), 1);
        assert_eq!(g.at(g.player()), Kind::Player);
        let occupied = occupied_cells(&g);
        if g.player() == g.food() {
            assert_eq!(occupied, 1);
        } else {
            assert_eq!(occupied, 2);
            assert_eq!(g.at(g.food()), Kind::Food);
        }
    }
}

#[test]
fn score_never_decreases_and_counts_each_visit() {
    let mut g = Game::new();
    let path = [
        Position::Right,
        Position::Right,
        Position::Up,
        Position::Up,
        Position::Down,
        Position::Up,
        Position::Left,
        Position::Right,
    ];
    let mut last = g.score();
    for d in path {
        g.update_player_position(d);
        assert!(g.score() >= last);
        last = g.score();
    }
    assert_eq!(g.score(), 3);
}

#[test]
fn item_shows_again_after_player_leaves_it() {
    let mut g = Game::with_positions(Entity::new(2, 2), Entity::new(3, 2));
    g.update_player_position(Position::Right);
    assert_eq!(g.score(), 1);
    assert_eq!(g.at(Entity::new(3, 2)), Kind::Player);
    g.update_player_position(Position::Right);
    assert_eq!(g.at(Entity::new(3, 2)), Kind::Food);
    assert_eq!(g.at(Entity::new(4, 2)), Kind::Player);
    assert_eq!(g.food(), Entity::new(3, 2));
}

#[test]
fn new_game_frame() {
    let g = Game::new();
    let mut expected = String::from("\x1B[2J\x1B[1;1H");
    for y in 0..11 {
        for x in 0..11 {
            if x == 5 && y == 5 {
                expected.push('😳');
            } else if x == 7 && y == 3 {
                expected.push('🍒');
            } else {
                expected.push('⚫');
            }
        }
        expected.push('\n');
    }
    expected.push_str("SCORE: 0");
    assert_eq!(frame_string(&g), expected);
}

#[test]
fn frame_shows_score() {
    let mut g = Game::with_positions(Entity::new(0, 0), Entity::new(1, 0));
    for _ in 0..12 {
        g.update_player_position(Position::Right);
        g.update_player_position(Position::Left);
    }
    assert_eq!(g.score(), 12);
    let f = frame_string(&g);
    assert!(f.ends_with("\nSCORE: 12"));
    assert_eq!(f.lines().count(), 12);
}

#[test]
fn decimal_writing() {
    for (n, s) in [(0u64, "0"), (7, "7"), (10, "10"), (1234, "1234"), (u64::MAX, "18446744073709551615")] {
        let mut out = vec!['x'];
        push_decimal(&mut out, n);
        let text: String = out.iter().collect();
        assert_eq!(text, format!("x{}", s));
    }
}

#[test]
fn glyphs_are_distinct() {
    assert_eq!(glyph_of(Kind::Player), '😳');
    assert_eq!(glyph_of(Kind::Food), '🍒');
    assert_eq!(glyph_of(Kind::Empty), '⚫');
    assert_eq!(CELLS, (ROW as usize) * (COLUMN as usize));
}
