//! The grid model: cell positions, the board, neighbor counting and the
//! classical Conway transition rule on a bounded (non-wrapping) grid.
//!
//! A board is a dense `width x height` array of [`Cell`], indexed `[x][y]`,
//! in which every cell records its own position. Its mathematical model is a
//! grid of booleans, `Seq<Seq<bool>>`, obtained by [`grid_view`]; all
//! contracts are stated over that model.

use vstd::prelude::*;

verus! {

/// A cell's coordinates on the grid: `0 <= x < width`, `0 <= y < height`.
#[derive(Clone, Copy, PartialEq, Eq, Structural, Debug)]
pub struct GridPosition {
    pub x: i16,
    pub y: i16,
}

impl GridPosition {
    pub fn new(x: i16, y: i16) -> (p: GridPosition)
        ensures
            p.x == x,
            p.y == y,
    {
        GridPosition { x, y }
    }

    /// A position drawn uniformly at random from `[0, max_x) x [0, max_y)`.
    pub fn random(max_x: i16, max_y: i16) -> (p: GridPosition)
        requires
            0 < max_x,
            0 < max_y,
        ensures
            0 <= p.x < max_x,
            0 <= p.y < max_y,
    {
        let x = rand_range_i16(0, max_x);
        let y = rand_range_i16(0, max_y);
        GridPosition { x, y }
    }
}

impl From<(i16, i16)> for GridPosition {
    fn from(pos: (i16, i16)) -> (p: GridPosition)
        ensures
            p.x == pos.0,
            p.y == pos.1,
    {
        GridPosition { x: pos.0, y: pos.1 }
    }
}

impl vstd::std_specs::convert::FromSpecImpl<(i16, i16)> for GridPosition {
    open spec fn obeys_from_spec() -> bool {
        true
    }

    open spec fn from_spec(pos: (i16, i16)) -> GridPosition {
        GridPosition { x: pos.0, y: pos.1 }
    }
}

/// Relies on `rand::Rng::gen_range` on the generator returned by
/// `rand::thread_rng`: the result is drawn uniformly from `[low, high)`,
/// inclusive of `low` and exclusive of `high`. `gen_range` panics only when
/// `low >= high`, which the precondition excludes.
#[verifier::external_body]
fn rand_range_i16(low: i16, high: i16) -> (r: i16)
    requires
        low < high,
    ensures
        low <= r < high,
{
    <rand::rngs::ThreadRng as rand::Rng>::gen_range(&mut rand::thread_rng(), low, high)
}

/// One cell of the board: its (immutable) grid slot and whether it is alive.
#[derive(Clone, Copy, PartialEq, Eq, Structural, Debug)]
pub struct Cell {
    pub position: GridPosition,
    pub alive: bool,
}

impl Cell {
    pub fn new(position: GridPosition, alive: bool) -> (c: Cell)
        ensures
            c.position == position,
            c.alive == alive,
    {
        Cell { position, alive }
    }
}

/// The number of rows every column of the board must have (the height of the
/// first column; well-formedness makes all columns agree with it).
pub open spec fn board_height(b: Seq<Vec<Cell>>) -> int {
    if b.len() == 0 {
        0
    } else {
        b[0]@.len() as int
    }
}

/// Board well-formedness: rectangular, both dimensions fit in `i16`, and
/// every cell records the grid slot that holds it.
pub open spec fn board_wf(b: Seq<Vec<Cell>>) -> bool {
    &&& b.len() <= 0x7fff
    &&& board_height(b) <= 0x7fff
    &&& forall|x: int| 0 <= x < b.len() ==> (#[trigger] b[x])@.len() == board_height(b)
    &&& forall|x: int, y: int|
        0 <= x < b.len() && 0 <= y < board_height(b) ==> (#[trigger] b[x]@[y]).position
            == (GridPosition { x: x as i16, y: y as i16 })
}

/// The mathematical model of a board: the grid of `alive` flags.
pub open spec fn grid_view(b: Seq<Vec<Cell>>) -> Seq<Seq<bool>> {
    Seq::new(b.len(), |x: int| Seq::new(b[x]@.len(), |y: int| b[x]@[y].alive))
}

/// Whether `(x, y)` is a position on the grid.
pub open spec fn in_grid(g: Seq<Seq<bool>>, x: int, y: int) -> bool {
    0 <= x < g.len() && 0 <= y < g[x].len()
}

/// 1 if `(x, y)` is an in-range live cell, else 0; positions off the grid
/// contribute 0, so edges and corners never wrap around.
pub open spec fn neighbor_bit(g: Seq<Seq<bool>>, x: int, y: int) -> int {
    if in_grid(g, x, y) && g[x][y] {
        1
    } else {
        0
    }
}

/// The exact number of live cells among the up-to-8 grid-adjacent neighbors
/// of `(x, y)` (horizontal, vertical and diagonal, bounded by the grid).
pub open spec fn live_neighbors(g: Seq<Seq<bool>>, x: int, y: int) -> int {
    neighbor_bit(g, x - 1, y - 1) + neighbor_bit(g, x - 1, y) + neighbor_bit(g, x - 1, y + 1)
        + neighbor_bit(g, x, y - 1) + neighbor_bit(g, x, y + 1) + neighbor_bit(g, x + 1, y - 1)
        + neighbor_bit(g, x + 1, y) + neighbor_bit(g, x + 1, y + 1)
}

/// Conway's rule for one cell: birth on exactly 3 live neighbors, survival
/// on 2 or 3, death otherwise.
pub open spec fn next_alive(g: Seq<Seq<bool>>, x: int, y: int) -> bool {
    if g[x][y] {
        live_neighbors(g, x, y) == 2 || live_neighbors(g, x, y) == 3
    } else {
        live_neighbors(g, x, y) == 3
    }
}

/// One generation of the automaton, computed cell-wise from the prior grid
/// alone.
pub open spec fn step_grid(g: Seq<Seq<bool>>) -> Seq<Seq<bool>> {
    Seq::new(g.len(), |x: int| Seq::new(g[x].len(), |y: int| next_alive(g, x, y)))
}

/// The same grid with every cell dead.
pub open spec fn clear_grid(g: Seq<Seq<bool>>) -> Seq<Seq<bool>> {
    Seq::new(g.len(), |x: int| Seq::new(g[x].len(), |y: int| false))
}

/// The same grid with the cell at `(x, y)` replaced by `v`.
pub open spec fn set_grid(g: Seq<Seq<bool>>, x: int, y: int, v: bool) -> Seq<Seq<bool>> {
    Seq::new(
        g.len(),
        |i: int|
            Seq::new(
                g[i].len(),
                |j: int|
                    if i == x && j == y {
                        v
                    } else {
                        g[i][j]
                    },
            ),
    )
}

/// The same grid with the cell at `(x, y)` flipped.
pub open spec fn toggle_grid(g: Seq<Seq<bool>>, x: int, y: int) -> Seq<Seq<bool>> {
    set_grid(g, x, y, !g[x][y])
}

/// No live cell anywhere on the grid.
pub open spec fn all_dead(g: Seq<Seq<bool>>) -> bool {
    forall|x: int, y: int| in_grid(g, x, y) ==> !(#[trigger] g[x][y])
}

/// The number of live cells in one column.
pub open spec fn live_cells_in_column(col: Seq<bool>) -> int
    decreases col.len(),
{
    if col.len() == 0 {
        0
    } else {
        live_cells_in_column(col.drop_last()) + (if col.last() {
            1int
        } else {
            0int
        })
    }
}

/// The number of live cells on the whole grid.
pub open spec fn live_cells(g: Seq<Seq<bool>>) -> int
    decreases g.len(),
{
    if g.len() == 0 {
        0
    } else {
        live_cells(g.drop_last()) + live_cells_in_column(g.last())
    }
}

proof fn lemma_dead_column_count(col: Seq<bool>)
    requires
        forall|j: int| 0 <= j < col.len() ==> !col[j],
    ensures
        live_cells_in_column(col) == 0,
    decreases col.len(),
{
    if col.len() > 0 {
        lemma_dead_column_count(col.drop_last());
    }
}

proof fn lemma_all_dead_count(g: Seq<Seq<bool>>)
    requires
        all_dead(g),
    ensures
        live_cells(g) == 0,
    decreases g.len(),
{
    if g.len() > 0 {
        assert forall|x: int, y: int| in_grid(g.drop_last(), x, y) implies !(#[trigger] g.drop_last(
        )[x][y]) by {
            assert(g.drop_last()[x] == g[x]);
        }
        lemma_all_dead_count(g.drop_last());
        assert(forall|j: int| 0 <= j < g.last().len() ==> !g.last()[j]) by {
            assert(forall|j: int|
                0 <= j < g.last().len() ==> in_grid(g, g.len() - 1, j) && g.last()[j] == g[g.len()
                    - 1][j]);
        }
        lemma_dead_column_count(g.last());
    }
}

proof fn lemma_column_update_count(col: Seq<bool>, y: int, v: bool)
    requires
        0 <= y < col.len(),
    ensures
        live_cells_in_column(col.update(y, v)) <= live_cells_in_column(col) + 1,
    decreases col.len(),
{
    let updated = col.update(y, v);
    if y == col.len() - 1 {
        assert(updated.drop_last() =~= col.drop_last());
    } else {
        assert(updated.drop_last() =~= col.drop_last().update(y, v));
        lemma_column_update_count(col.drop_last(), y, v);
        assert(updated.last() == col.last());
    }
}

proof fn lemma_grid_update_count(g: Seq<Seq<bool>>, x: int, c: Seq<bool>)
    requires
        0 <= x < g.len(),
    ensures
        live_cells(g.update(x, c)) == live_cells(g) - live_cells_in_column(g[x])
            + live_cells_in_column(c),
    decreases g.len(),
{
    let updated = g.update(x, c);
    if x == g.len() - 1 {
        assert(updated.drop_last() =~= g.drop_last());
        assert(updated.last() == c);
    } else {
        assert(updated.drop_last() =~= g.drop_last().update(x, c));
        lemma_grid_update_count(g.drop_last(), x, c);
        assert(updated.last() == g.last());
        assert(g.drop_last()[x] == g[x]);
    }
}

/// 1 if `(x, y)` names an in-range live cell of `board`, else 0.
fn neighbor_contribution(board: &Vec<Vec<Cell>>, x: i32, y: i32) -> (b: i16)
    requires
        board_wf(board@),
    ensures
        b == neighbor_bit(grid_view(board@), x as int, y as int),
        0 <= b <= 1,
{
    if 0 <= x && (x as usize) < board.len() {
        let col: &Vec<Cell> = &board[x as usize];
        if 0 <= y && (y as usize) < col.len() {
            if col[y as usize].alive {
                1
            } else {
                0
            }
        } else {
            0
        }
    } else {
        0
    }
}

/// Counts the live cells among the up-to-8 in-range neighbors of `pos`.
/// Edges and corners have fewer neighbors; the grid never wraps.
pub fn neighbor_count(board: &Vec<Vec<Cell>>, pos: GridPosition) -> (n: i16)
    requires
        board_wf(board@),
        0 <= pos.x < board@.len(),
        0 <= pos.y < board_height(board@),
    ensures
        n == live_neighbors(grid_view(board@), pos.x as int, pos.y as int),
        0 <= n <= 8,
{
    let x = pos.x as i32;
    let y = pos.y as i32;
    let mut n: i16 = 0;
    n += neighbor_contribution(board, x - 1, y - 1);
    n += neighbor_contribution(board, x - 1, y);
    n += neighbor_contribution(board, x - 1, y + 1);
    n += neighbor_contribution(board, x, y - 1);
    n += neighbor_contribution(board, x, y + 1);
    n += neighbor_contribution(board, x + 1, y - 1);
    n += neighbor_contribution(board, x + 1, y);
    n += neighbor_contribution(board, x + 1, y + 1);
    n
}

/// Computes the next generation. Every cell's new state is a function of a
/// snapshot of the current generation alone: birth on exactly 3 live
/// neighbors, survival on 2 or 3, death otherwise.
#[verifier::loop_isolation(false)]
pub fn step(board: &Vec<Vec<Cell>>) -> (next: Vec<Vec<Cell>>)
    requires
        board_wf(board@),
    ensures
        board_wf(next@),
        next@.len() == board@.len(),
        board_height(next@) == board_height(board@),
        grid_view(next@) == step_grid(grid_view(board@)),
{
    let ghost g = grid_view(board@);
    let w = board.len();
    let mut next: Vec<Vec<Cell>> = Vec::new();
    let mut x: usize = 0;
    while x < w
        invariant
            x <= w,
            next@.len() == x,
            forall|i: int| 0 <= i < x ==> (#[trigger] next@[i])@.len() == board_height(board@),
            forall|i: int, j: int|
                0 <= i < x && 0 <= j < board_height(board@) ==> {
                    &&& (#[trigger] next@[i]@[j]).position == (GridPosition {
                        x: i as i16,
                        y: j as i16,
                    })
                    &&& next@[i]@[j].alive == next_alive(g, i, j)
                },
        decreases w - x,
    {
        let h = board[x].len();
        let mut column: Vec<Cell> = Vec::new();
        let mut y: usize = 0;
        while y < h
            invariant
                x < w,
                y <= h,
                column@.len() == y,
                forall|j: int|
                    0 <= j < y ==> {
                        &&& (#[trigger] column@[j]).position == (GridPosition {
                            x: x as i16,
                            y: j as i16,
                        })
                        &&& column@[j].alive == next_alive(g, x as int, j)
                    },
            decreases h - y,
        {
            let current = board[x][y];
            let n = neighbor_count(board, current.position);
            let alive_next = if current.alive {
                n == 2 || n == 3
            } else {
                n == 3
            };
            column.push(Cell { position: current.position, alive: alive_next });
            y += 1;
        }
        next.push(column);
        x += 1;
    }
    proof {
        assert(grid_view(next@) =~~= step_grid(grid_view(board@)));
    }
    next
}

/// The one failure the grid model can report: a position off the grid.
#[derive(Clone, Copy, PartialEq, Eq, Structural, Debug)]
pub enum GridError {
    OutOfRange,
}

/// A `width x height` board with every cell dead.
#[verifier::loop_isolation(false)]
fn blank_board(width: usize, height: usize) -> (board: Vec<Vec<Cell>>)
    requires
        width <= 0x7fff,
        height <= 0x7fff,
    ensures
        board_wf(board@),
        board@.len() == width,
        width > 0 ==> board_height(board@) == height,
        all_dead(grid_view(board@)),
{
    let mut board: Vec<Vec<Cell>> = Vec::new();
    let mut x: usize = 0;
    while x < width
        invariant
            x <= width,
            board@.len() == x,
            forall|i: int| 0 <= i < x ==> (#[trigger] board@[i])@.len() == height,
            forall|i: int, j: int|
                0 <= i < x && 0 <= j < height ==> {
                    &&& (#[trigger] board@[i]@[j]).position == (GridPosition {
                        x: i as i16,
                        y: j as i16,
                    })
                    &&& !board@[i]@[j].alive
                },
        decreases width - x,
    {
        let mut column: Vec<Cell> = Vec::new();
        let mut y: usize = 0;
        while y < height
            invariant
                x < width,
                y <= height,
                column@.len() == y,
                forall|j: int|
                    0 <= j < y ==> {
                        &&& (#[trigger] column@[j]).position == (GridPosition {
                            x: x as i16,
                            y: j as i16,
                        })
                        &&& !column@[j].alive
                    },
            decreases height - y,
        {
            column.push(Cell { position: GridPosition { x: x as i16, y: y as i16 }, alive: false });
            y += 1;
        }
        board.push(column);
        x += 1;
    }
    board
}

/// A board of the same dimensions as `board` with every cell dead.
pub fn clear(board: &Vec<Vec<Cell>>) -> (cleared: Vec<Vec<Cell>>)
    requires
        board_wf(board@),
    ensures
        board_wf(cleared@),
        cleared@.len() == board@.len(),
        board_height(cleared@) == board_height(board@),
        grid_view(cleared@) == clear_grid(grid_view(board@)),
        all_dead(grid_view(cleared@)),
{
    let height = if board.len() == 0 {
        0
    } else {
        board[0].len()
    };
    let cleared = blank_board(board.len(), height);
    proof {
        assert(grid_view(cleared@) =~~= clear_grid(grid_view(board@)));
    }
    cleared
}

/// Flips the cell at `pos` (dead to alive, alive to dead) in a copy of the
/// board; a position off the grid is rejected with [`GridError::OutOfRange`]
/// and nothing else.
#[verifier::loop_isolation(false)]
pub fn toggle(board: &Vec<Vec<Cell>>, pos: GridPosition) -> (result: Result<
    Vec<Vec<Cell>>,
    GridError,
>)
    requires
        board_wf(board@),
    ensures
        match result {
            Ok(toggled) => {
                &&& in_grid(grid_view(board@), pos.x as int, pos.y as int)
                &&& board_wf(toggled@)
                &&& toggled@.len() == board@.len()
                &&& board_height(toggled@) == board_height(board@)
                &&& grid_view(toggled@) == toggle_grid(
                    grid_view(board@),
                    pos.x as int,
                    pos.y as int,
                )
            },
            Err(e) => {
                &&& !in_grid(grid_view(board@), pos.x as int, pos.y as int)
                &&& e == GridError::OutOfRange
            },
        },
{
    let ghost g = grid_view(board@);
    let w = board.len();
    if !(0 <= pos.x && (pos.x as usize) < w) {
        return Err(GridError::OutOfRange);
    }
    let h = board[pos.x as usize].len();
    if !(0 <= pos.y && (pos.y as usize) < h) {
        return Err(GridError::OutOfRange);
    }
    let mut toggled: Vec<Vec<Cell>> = Vec::new();
    let mut x: usize = 0;
    while x < w
        invariant
            x <= w,
            toggled@.len() == x,
            forall|i: int| 0 <= i < x ==> (#[trigger] toggled@[i])@.len() == board_height(board@),
            forall|i: int, j: int|
                0 <= i < x && 0 <= j < board_height(board@) ==> {
                    &&& (#[trigger] toggled@[i]@[j]).position == (GridPosition {
                        x: i as i16,
                        y: j as i16,
                    })
                    &&& toggled@[i]@[j].alive == (if i == pos.x as int && j == pos.y as int {
                        !g[i][j]
                    } else {
                        g[i][j]
                    })
                },
        decreases w - x,
    {
        let height = board[x].len();
        let mut column: Vec<Cell> = Vec::new();
        let mut y: usize = 0;
        while y < height
            invariant
                x < w,
                y <= height,
                column@.len() == y,
                forall|j: int|
                    0 <= j < y ==> {
                        &&& (#[trigger] column@[j]).position == (GridPosition {
                            x: x as i16,
                            y: j as i16,
                        })
                        &&& column@[j].alive == (if x as int == pos.x as int && j == pos.y as int {
                            !g[x as int][j]
                        } else {
                            g[x as int][j]
                        })
                    },
            decreases height - y,
        {
            let current = board[x][y];
            let flipped = x == pos.x as usize && y == pos.y as usize;
            let alive_next = if flipped {
                !current.alive
            } else {
                current.alive
            };
            column.push(Cell { position: current.position, alive: alive_next });
            y += 1;
        }
        toggled.push(column);
        x += 1;
    }
    proof {
        assert(grid_view(toggled@) =~~= toggle_grid(g, pos.x as int, pos.y as int));
    }
    Ok(toggled)
}

/// A `width x height` board, all dead, then `live_count` cells marked alive
/// at positions drawn independently and uniformly at random (with
/// replacement: duplicate draws re-mark an already-live cell, so the realized
/// live count may be smaller than requested).
#[verifier::loop_isolation(false)]
pub fn seed(width: i16, height: i16, live_count: i16) -> (board: Vec<Vec<Cell>>)
    requires
        1 <= width,
        1 <= height,
    ensures
        board_wf(board@),
        board@.len() == width,
        board_height(board@) == height,
        live_count <= 0 ==> all_dead(grid_view(board@)),
        1 <= live_count ==> !all_dead(grid_view(board@)),
        live_cells(grid_view(board@)) <= (if live_count >= 0 {
            live_count as int
        } else {
            0int
        }),
{
    let mut board = blank_board(width as usize, height as usize);
    proof {
        lemma_all_dead_count(grid_view(board@));
    }
    let mut k: i16 = 0;
    while k < live_count
        invariant
            0 <= k,
            live_count >= 0 ==> k <= live_count,
            live_count < 0 ==> k == 0,
            board_wf(board@),
            board@.len() == width,
            board_height(board@) == height,
            live_count <= 0 ==> all_dead(grid_view(board@)),
            1 <= k ==> !all_dead(grid_view(board@)),
            live_cells(grid_view(board@)) <= k,
        decreases live_count - k,
    {
        let p = GridPosition::random(width, height);
        let ghost before = grid_view(board@);
        board[p.x as usize][p.y as usize].alive = true;
        proof {
            let px = p.x as int;
            let py = p.y as int;
            assert(forall|i: int|
                0 <= i < board@.len() ==> (#[trigger] board@[i])@.len() == height);
            assert(grid_view(board@) =~~= before.update(px, before[px].update(py, true)));
            lemma_grid_update_count(before, px, before[px].update(py, true));
            lemma_column_update_count(before[px], py, true);
            // the cell just marked is alive, so the board is not all dead
            assert(grid_view(board@)[px][py]);
        }
        k += 1;
    }
    board
}

} // verus!
