use game_of_life::controller::Config;
use game_of_life::controller::Event;
use game_of_life::controller::GameState;
use game_of_life::controller::Key;
use game_of_life::grid::Cell;
use game_of_life::grid::GridPosition;
use game_of_life::grid::GridError;
use game_of_life::grid::clear;
use game_of_life::grid::neighbor_count;
use game_of_life::grid::seed;
use game_of_life::grid::step;
use game_of_life::grid::toggle;

/// A `width x height` board, all dead except the given positions.
fn board_with(width: i16, height: i16, live: &[(i16, i16)]) -> Vec<Vec<Cell>> {
    let mut board = seed(width, height, 0);
    for &(x, y) in live {
        board = toggle(&board, GridPosition::new(x, y)).unwrap();
    }
    board
}

fn live_positions(board: &Vec<Vec<Cell>>) -> Vec<(i16, i16)> {
    let mut live = Vec::new();
    for column in board.iter() {
        for cell in column.iter() {
            if cell.alive {
                live.push((cell.position.x, cell.position.y));
            }
        }
    }
    live
}

fn all_dead(board: &Vec<Vec<Cell>>) -> bool {
    live_positions(board).is_empty()
}

#[test]
fn neighbor_count_exact_and_bounded() {
    // a full 3x3 block: the center sees all 8, a corner sees 3, an edge 5
    let board = board_with(
        3,
        3,
        &[(0, 0), (0, 1), (0, 2), (1, 0), (1, 1), (1, 2), (2, 0), (2, 1), (2, 2)],
    );
    assert_eq!(neighbor_count(&board, GridPosition::new(1, 1)), 8);
    assert_eq!(neighbor_count(&board, GridPosition::new(0, 0)), 3);
    assert_eq!(neighbor_count(&board, GridPosition::new(1, 0)), 5);
}

#[test]
fn neighbor_count_does_not_wrap() {
    // a live cell on the right edge is not adjacent to the left edge
    let board = board_with(4, 4, &[(3, 1)]);
    assert_eq!(neighbor_count(&board, GridPosition::new(0, 1)), 0);
    assert_eq!(neighbor_count(&board, GridPosition::new(2, 1)), 1);
}

#[test]
fn step_is_deterministic() {
    let board = board_with(4, 4, &[(0, 1), (1, 1), (2, 1), (3, 3)]);
    let first = step(&board);
    let second = step(&board);
    assert_eq!(first, second);
}

#[test]
fn birth_rule() {
    // (1, 1) is dead with exactly 3 live neighbors: born
    let with_three = board_with(3, 3, &[(0, 0), (0, 1), (0, 2)]);
    assert!(step(&with_three)[1][1].alive);
    // with 2 live neighbors it stays dead
    let with_two = board_with(3, 3, &[(0, 0), (0, 1)]);
    assert!(!step(&with_two)[1][1].alive);
    // with 4 live neighbors it stays dead
    let with_four = board_with(3, 3, &[(0, 0), (0, 1), (0, 2), (2, 0)]);
    assert!(!step(&with_four)[1][1].alive);
}

#[test]
fn survival_rule() {
    // a live cell with 2 or 3 live neighbors survives
    let with_two = board_with(3, 3, &[(1, 1), (0, 0), (0, 1)]);
    assert!(step(&with_two)[1][1].alive);
    let with_three = board_with(3, 3, &[(1, 1), (0, 0), (0, 1), (0, 2)]);
    assert!(step(&with_three)[1][1].alive);
    // with 1 it dies of isolation, with 4 of overcrowding
    let with_one = board_with(3, 3, &[(1, 1), (0, 0)]);
    assert!(!step(&with_one)[1][1].alive);
    let with_four = board_with(3, 3, &[(1, 1), (0, 0), (0, 1), (0, 2), (2, 0)]);
    assert!(!step(&with_four)[1][1].alive);
}

#[test]
fn clear_is_a_stable_fixed_point() {
    let board = board_with(5, 5, &[(1, 1), (2, 1), (3, 1), (2, 2)]);
    let mut current = clear(&board);
    assert!(all_dead(&current));
    for _ in 0..4 {
        current = step(&current);
        assert!(all_dead(&current));
    }
}

#[test]
fn toggle_is_self_inverse() {
    let board = board_with(4, 3, &[(0, 0), (2, 1)]);
    let p = GridPosition::new(1, 2);
    let once = toggle(&board, p).unwrap();
    assert!(once[1][2].alive);
    let twice = toggle(&once, p).unwrap();
    assert_eq!(twice, board);
}

#[test]
fn toggle_out_of_range_is_an_error() {
    let board = board_with(3, 3, &[]);
    assert_eq!(toggle(&board, GridPosition::new(3, 0)), Err(GridError::OutOfRange));
    assert_eq!(toggle(&board, GridPosition::new(0, -1)), Err(GridError::OutOfRange));
}

#[test]
fn isolated_cell_dies() {
    // 3x3 board, single live cell at the center: everything dies
    let board = board_with(3, 3, &[(1, 1)]);
    assert!(all_dead(&step(&board)));
}

#[test]
fn blinker_oscillates() {
    // horizontal line (0,1),(1,1),(2,1) becomes vertical line (1,0),(1,1),(1,2)
    let board = board_with(3, 3, &[(0, 1), (1, 1), (2, 1)]);
    let next = step(&board);
    let mut live = live_positions(&next);
    live.sort();
    assert_eq!(live, vec![(1, 0), (1, 1), (1, 2)]);
}

#[test]
fn block_is_a_still_life() {
    // a 2x2 block surrounded by dead cells is unchanged by a step
    let board = board_with(6, 6, &[(2, 2), (2, 3), (3, 2), (3, 3)]);
    let next = step(&board);
    assert_eq!(next, board);
}

#[test]
fn click_on_the_grid_toggles_one_cell() {
    let mut state = GameState::new(0);
    // default 10x10 pixel cells: (25, 37) lands on cell (2, 3)
    state.handle_event(Event::Click(25, 37));
    let live = live_positions(&state.board);
    assert_eq!(live, vec![(2, 3)]);
    // clicking the same cell again toggles it back off
    state.handle_event(Event::Click(25, 37));
    assert!(all_dead(&state.board));
}

#[test]
fn click_outside_the_grid_is_a_no_op() {
    let mut state = GameState::new(0);
    state.handle_event(Event::Click(3, 4));
    let before = state.board.clone();
    // the default 100x100 grid of 10x10 cells covers [0, 1000) pixels
    state.on_pointer_click(1000, 4);
    state.on_pointer_click(4, 2500);
    state.on_pointer_click(-1, 4);
    assert_eq!(state.board, before);
    assert!(!state.run);
    assert!(!state.reset_board);
}

#[test]
fn reset_waits_for_the_next_eligible_tick() {
    let mut state = GameState::new(0);
    state.on_pointer_click(5, 5);
    let before = state.board.clone();
    state.on_reset_key();
    assert!(state.reset_board);
    // the default rate is 20 updates/sec: a tick before 50 ms is a no-op
    state.on_tick(49);
    assert_eq!(state.board, before);
    assert!(state.reset_board);
    // once the interval has elapsed the staged reset clears the board
    state.on_tick(50);
    assert!(all_dead(&state.board));
    assert!(!state.reset_board);
    assert_eq!(state.last_update, 50);
}

#[test]
fn toggle_run_key_flips_the_run_flag() {
    let mut state = GameState::new(0);
    assert!(!state.run);
    state.handle_event(Event::KeyPress(Key::ToggleRun));
    assert!(state.run);
    state.handle_event(Event::KeyPress(Key::Unrecognized));
    assert!(state.run);
    state.handle_event(Event::KeyPress(Key::ToggleRun));
    assert!(!state.run);
}

#[test]
fn paused_ticks_do_not_advance_the_simulation() {
    let mut state = GameState::new(0);
    state.on_pointer_click(5, 5);
    let before = state.board.clone();
    // paused: an eligible tick leaves the board alone but records the time
    state.on_tick(60);
    assert_eq!(state.board, before);
    assert_eq!(state.last_update, 60);
    // running: the isolated cell dies on the next eligible tick
    state.on_toggle_run_key();
    state.on_tick(120);
    assert!(all_dead(&state.board));
}

#[test]
fn render_view_lists_exactly_the_live_cells() {
    let mut state = GameState::new(0);
    state.on_pointer_click(0, 0);
    state.on_pointer_click(995, 995);
    let mut view: Vec<(i16, i16)> = state.render_view().iter().map(|p| (p.x, p.y)).collect();
    view.sort();
    assert_eq!(view, vec![(0, 0), (99, 99)]);
}

#[test]
fn seed_marks_cells_within_bounds() {
    // on a 1x1 grid every random draw must pick (0, 0)
    let board = seed(1, 1, 3);
    assert!(board[0][0].alive);
    assert_eq!(live_positions(&board), vec![(0, 0)]);
    // a request for no live cells yields an all-dead board
    assert!(all_dead(&seed(7, 5, 0)));
    // a positive request marks at least one cell, and never more than asked
    let sprinkled = live_positions(&seed(5, 5, 3));
    assert!(1 <= sprinkled.len() && sprinkled.len() <= 3);
    let p = GridPosition::random(1, 1);
    assert_eq!((p.x, p.y), (0, 0));
}

#[test]
fn seeded_session_has_the_documented_defaults() {
    let state = GameState::new(0);
    let config = Config::default();
    assert_eq!(config.grid_width, 100);
    assert_eq!(config.grid_height, 100);
    assert_eq!(config.cell_width, 10);
    assert_eq!(config.cell_height, 10);
    assert_eq!(config.updates_per_second, 20);
    assert_eq!(config.initial_live_count, 0);
    assert_eq!(state.config, config);
    assert!(!state.run);
    assert!(!state.reset_board);
    assert_eq!(state.last_update, 0);
    assert_eq!(state.board.len(), 100);
    assert_eq!(state.board[0].len(), 100);
    assert!(all_dead(&state.board));
    // a seeded session starts with at least one live cell and never more
    // than requested
    let seeded = GameState::new(30);
    let realized = live_positions(&seeded.board).len();
    assert!(1 <= realized && realized <= 30);
}

#[test]
fn cells_record_their_own_position() {
    let board = board_with(4, 2, &[(3, 1)]);
    for (x, column) in board.iter().enumerate() {
        for (y, cell) in column.iter().enumerate() {
            assert_eq!(cell.position, GridPosition::from((x as i16, y as i16)));
        }
    }
    let cell = Cell::new(GridPosition::new(2, 0), true);
    assert!(cell.alive);
    assert_eq!(cell.position, GridPosition::new(2, 0));
}
