//! The interaction controller: session state (run flag, staged reset, tick
//! gate) and the translation of discrete input events into grid operations.
//!
//! An external event loop delivers timer ticks, key presses and pointer
//! clicks; the controller gates simulation advancement to a fixed real-time
//! rate and mutates the board through the grid model alone.

use vstd::prelude::*;

use crate::grid;
use crate::grid::Cell;
use crate::grid::GridPosition;
use crate::grid::all_dead;
use crate::grid::board_height;
use crate::grid::board_wf;
use crate::grid::clear_grid;
use crate::grid::grid_view;
use crate::grid::in_grid;
use crate::grid::step_grid;
use crate::grid::toggle_grid;

verus! {

/// Startup parameters; see [`Config::default`] for the documented defaults.
#[derive(Clone, Copy, PartialEq, Eq, Structural, Debug)]
pub struct Config {
    /// Number of columns of the grid.
    pub grid_width: i16,
    /// Number of rows of the grid.
    pub grid_height: i16,
    /// Width of one rendered cell, in pixels.
    pub cell_width: i16,
    /// Height of one rendered cell, in pixels.
    pub cell_height: i16,
    /// Fixed simulation rate; the tick gate lets one generation through
    /// every `1000 / updates_per_second` milliseconds.
    pub updates_per_second: u64,
    /// How many random positions the initial board marks alive.
    pub initial_live_count: i16,
}

/// The constraints every configuration must meet: positive dimensions that
/// leave every position representable, positive cell size, and a rate that
/// yields a positive whole number of milliseconds per update.
pub open spec fn config_wf(c: Config) -> bool {
    &&& 1 <= c.grid_width
    &&& 1 <= c.grid_height
    &&& 1 <= c.cell_width
    &&& 1 <= c.cell_height
    &&& 1 <= c.updates_per_second <= 1000
}

/// The documented defaults: a 100 x 100 grid of 10 x 10 pixel cells, 20
/// updates per second, no initial live cells.
pub open spec fn default_config() -> Config {
    Config {
        grid_width: 100,
        grid_height: 100,
        cell_width: 10,
        cell_height: 10,
        updates_per_second: 20,
        initial_live_count: 0,
    }
}

impl Default for Config {
    /// The documented defaults; see [`default_config`].
    fn default() -> (c: Config)
        ensures
            c == default_config(),
            config_wf(c),
    {
        Config {
            grid_width: 100,
            grid_height: 100,
            cell_width: 10,
            cell_height: 10,
            updates_per_second: 20,
            initial_live_count: 0,
        }
    }
}

/// The milliseconds that must elapse between two simulated generations.
pub open spec fn tick_interval_millis(c: Config) -> int {
    1000int / c.updates_per_second as int
}

/// Whether a tick at `now` is let through the fixed-rate gate of `s`.
pub open spec fn tick_due(s: GameState, now: u64) -> bool {
    now >= s.last_update && now - s.last_update >= tick_interval_millis(s.config)
}

/// The grid after one eligible tick of `s`: a staged reset clears it, and
/// then, if the simulation runs, one generation is computed.
pub open spec fn post_tick_grid(s: GameState) -> Seq<Seq<bool>> {
    let g = if s.reset_board {
        clear_grid(grid_view(s.board@))
    } else {
        grid_view(s.board@)
    };
    if s.run {
        step_grid(g)
    } else {
        g
    }
}

/// Whether a click at screen coordinates `(sx, sy)` lands on the rendered
/// grid, which covers `[0, grid_width * cell_width) x [0, grid_height *
/// cell_height)` pixels.
pub open spec fn click_in_bounds(c: Config, sx: int, sy: int) -> bool {
    &&& 0 <= sx < c.grid_width * c.cell_width
    &&& 0 <= sy < c.grid_height * c.cell_height
}

/// The commands of the keyboard surface: one key toggles run/pause, one key
/// stages a reset, every other key is unrecognized (and merely logged by the
/// caller).
#[derive(Clone, Copy, PartialEq, Eq, Structural, Debug)]
pub enum Key {
    ToggleRun,
    Reset,
    Unrecognized,
}

/// One discrete input event, as the external loop delivers it: a timer tick
/// with the current time in milliseconds, a key press, or a pointer click at
/// screen coordinates.
#[derive(Clone, Copy, PartialEq, Eq, Structural, Debug)]
pub enum Event {
    Tick(u64),
    KeyPress(Key),
    Click(i64, i64),
}

/// The session state: the board plus the two simulation flags and the time
/// of the last eligible tick, owned exclusively and passed by exclusive
/// reference into every operation.
pub struct GameState {
    /// The current generation, indexed `[x][y]`.
    pub board: Vec<Vec<Cell>>,
    /// When the last eligible tick was processed, in milliseconds of the
    /// caller's monotonic clock.
    pub last_update: u64,
    /// Whether timer ticks advance the simulation.
    pub run: bool,
    /// Whether a reset is staged for the next eligible tick.
    pub reset_board: bool,
    /// The startup parameters this session was created with.
    pub config: Config,
}

impl GameState {
    /// Session well-formedness: a valid configuration and a well-formed
    /// board of exactly the configured dimensions.
    pub open spec fn wf(self) -> bool {
        &&& config_wf(self.config)
        &&& board_wf(self.board@)
        &&& self.board@.len() == self.config.grid_width
        &&& board_height(self.board@) == self.config.grid_height
    }

    /// A session over the given configuration, paused, with no reset
    /// staged, and a board seeded with `config.initial_live_count` random
    /// live cells.
    pub fn with_config(config: Config) -> (s: GameState)
        requires
            config_wf(config),
        ensures
            s.wf(),
            s.config == config,
            !s.run,
            !s.reset_board,
            s.last_update == 0,
            config.initial_live_count <= 0 ==> all_dead(grid_view(s.board@)),
            1 <= config.initial_live_count ==> !all_dead(grid_view(s.board@)),
            grid::live_cells(grid_view(s.board@)) <= (if config.initial_live_count >= 0 {
                config.initial_live_count as int
            } else {
                0int
            }),
    {
        let board = grid::seed(config.grid_width, config.grid_height, config.initial_live_count);
        GameState { board, last_update: 0, run: false, reset_board: false, config }
    }

    /// A session over the default configuration, except that `cell_count`
    /// random cells start alive.
    pub fn new(cell_count: i16) -> (s: GameState)
        ensures
            s.wf(),
            s.config == (Config { initial_live_count: cell_count, ..default_config() }),
            !s.run,
            !s.reset_board,
            s.last_update == 0,
            cell_count <= 0 ==> all_dead(grid_view(s.board@)),
            1 <= cell_count ==> !all_dead(grid_view(s.board@)),
            grid::live_cells(grid_view(s.board@)) <= (if cell_count >= 0 {
                cell_count as int
            } else {
                0int
            }),
    {
        let mut config = Config::default();
        config.initial_live_count = cell_count;
        GameState::with_config(config)
    }

    /// A timer tick at `now` milliseconds. Before the configured interval
    /// has elapsed since the last eligible tick this is a no-op; once it
    /// has, a staged reset clears the board, then, if running, one
    /// generation is computed, and the interval is measured from `now` on.
    pub fn on_tick(&mut self, now: u64)
        requires
            old(self).wf(),
        ensures
            final(self).wf(),
            final(self).config == old(self).config,
            final(self).run == old(self).run,
            !tick_due(*old(self), now) ==> *final(self) == *old(self),
            tick_due(*old(self), now) ==> {
                &&& final(self).last_update == now
                &&& !final(self).reset_board
                &&& grid_view(final(self).board@) == post_tick_grid(*old(self))
            },
    {
        let interval = 1000 / self.config.updates_per_second;
        if now >= self.last_update && now - self.last_update >= interval {
            if self.reset_board {
                self.board = grid::clear(&self.board);
                self.reset_board = false;
            }
            if self.run {
                self.board = grid::step(&self.board);
            }
            self.last_update = now;
        }
    }

    /// The run/pause command: flips `run` and touches nothing else.
    pub fn on_toggle_run_key(&mut self)
        ensures
            final(self).run == !old(self).run,
            final(self).board == old(self).board,
            final(self).reset_board == old(self).reset_board,
            final(self).last_update == old(self).last_update,
            final(self).config == old(self).config,
    {
        self.run = !self.run;
    }

    /// The reset command: stages a reset and touches nothing else. The
    /// clear itself is deferred to the next eligible tick, so it never
    /// happens mid-frame relative to rendering.
    pub fn on_reset_key(&mut self)
        ensures
            final(self).reset_board,
            final(self).board == old(self).board,
            final(self).run == old(self).run,
            final(self).last_update == old(self).last_update,
            final(self).config == old(self).config,
    {
        self.reset_board = true;
    }

    /// Any other key: no state change; the caller may log it, it is never
    /// an error.
    pub fn on_unrecognized_key(&mut self)
        ensures
            *final(self) == *old(self),
    {
    }

    /// A pointer click at screen coordinates `(screen_x, screen_y)`. On the
    /// rendered grid, the cell under the pointer (integer division by the
    /// cell pixel size) is toggled; anywhere else the click is rejected
    /// silently and the session is unchanged.
    pub fn on_pointer_click(&mut self, screen_x: i64, screen_y: i64)
        requires
            old(self).wf(),
        ensures
            final(self).wf(),
            final(self).config == old(self).config,
            final(self).run == old(self).run,
            final(self).reset_board == old(self).reset_board,
            final(self).last_update == old(self).last_update,
            !click_in_bounds(old(self).config, screen_x as int, screen_y as int) ==> *final(self)
                == *old(self),
            click_in_bounds(old(self).config, screen_x as int, screen_y as int) ==> grid_view(
                final(self).board@,
            ) == toggle_grid(
                grid_view(old(self).board@),
                screen_x as int / old(self).config.cell_width as int,
                screen_y as int / old(self).config.cell_height as int,
            ),
    {
        let cw = self.config.cell_width as i64;
        let ch = self.config.cell_height as i64;
        let w = self.config.grid_width as i64;
        let h = self.config.grid_height as i64;
        proof {
            assert(cw * w <= 0x7fff * 0x7fff) by (nonlinear_arith)
                requires
                    1 <= cw <= 0x7fff,
                    1 <= w <= 0x7fff,
            ;
            assert(ch * h <= 0x7fff * 0x7fff) by (nonlinear_arith)
                requires
                    1 <= ch <= 0x7fff,
                    1 <= h <= 0x7fff,
            ;
        }
        if 0 <= screen_x && screen_x < cw * w && 0 <= screen_y && screen_y < ch * h {
            proof {
                vstd::arithmetic::div_mod::lemma_multiply_divide_lt(
                    screen_x as int,
                    cw as int,
                    w as int,
                );
                vstd::arithmetic::div_mod::lemma_multiply_divide_lt(
                    screen_y as int,
                    ch as int,
                    h as int,
                );
                vstd::arithmetic::div_mod::lemma_div_pos_is_pos(screen_x as int, cw as int);
                vstd::arithmetic::div_mod::lemma_div_pos_is_pos(screen_y as int, ch as int);
            }
            let grid_x = (screen_x / cw) as i16;
            let grid_y = (screen_y / ch) as i16;
            let pos = GridPosition::new(grid_x, grid_y);
            match grid::toggle(&self.board, pos) {
                Ok(toggled) => {
                    self.board = toggled;
                },
                Err(_) => {
                    // unreachable: the bounds check above put `pos` on the grid
                },
            }
        }
    }

    /// Consumes one discrete event: ticks go through the rate gate, the two
    /// recognized keys flip `run` or stage a reset, an unrecognized key
    /// changes nothing, and a click toggles the cell under the pointer (or
    /// nothing, off the grid).
    pub fn handle_event(&mut self, event: Event)
        requires
            old(self).wf(),
        ensures
            final(self).wf(),
            final(self).config == old(self).config,
            match event {
                Event::Tick(now) => {
                    &&& final(self).run == old(self).run
                    &&& (!tick_due(*old(self), now) ==> *final(self) == *old(self))
                    &&& (tick_due(*old(self), now) ==> {
                        &&& final(self).last_update == now
                        &&& !final(self).reset_board
                        &&& grid_view(final(self).board@) == post_tick_grid(*old(self))
                    })
                },
                Event::KeyPress(Key::ToggleRun) => {
                    &&& final(self).run == !old(self).run
                    &&& final(self).board == old(self).board
                    &&& final(self).reset_board == old(self).reset_board
                    &&& final(self).last_update == old(self).last_update
                },
                Event::KeyPress(Key::Reset) => {
                    &&& final(self).reset_board
                    &&& final(self).board == old(self).board
                    &&& final(self).run == old(self).run
                    &&& final(self).last_update == old(self).last_update
                },
                Event::KeyPress(Key::Unrecognized) => *final(self) == *old(self),
                Event::Click(sx, sy) => {
                    &&& final(self).run == old(self).run
                    &&& final(self).reset_board == old(self).reset_board
                    &&& final(self).last_update == old(self).last_update
                    &&& (!click_in_bounds(old(self).config, sx as int, sy as int) ==> *final(self)
                        == *old(self))
                    &&& (click_in_bounds(old(self).config, sx as int, sy as int) ==> grid_view(
                        final(self).board@,
                    ) == toggle_grid(
                        grid_view(old(self).board@),
                        sx as int / old(self).config.cell_width as int,
                        sy as int / old(self).config.cell_height as int,
                    ))
                },
            },
    {
        match event {
            Event::Tick(now) => self.on_tick(now),
            Event::KeyPress(Key::ToggleRun) => self.on_toggle_run_key(),
            Event::KeyPress(Key::Reset) => self.on_reset_key(),
            Event::KeyPress(Key::Unrecognized) => self.on_unrecognized_key(),
            Event::Click(sx, sy) => self.on_pointer_click(sx, sy),
        }
    }

    /// The positions of all currently live cells, as a fresh sequence in
    /// row-major order: every entry is a distinct live in-range cell, and
    /// every live cell appears.
    #[verifier::loop_isolation(false)]
    pub fn render_view(&self) -> (live: Vec<GridPosition>)
        requires
            self.wf(),
        ensures
            forall|i: int|
                0 <= i < live@.len() ==> {
                    &&& in_grid(grid_view(self.board@), live@[i].x as int, live@[i].y as int)
                    &&& grid_view(self.board@)[live@[i].x as int][live@[i].y as int]
                },
            forall|x: int, y: int|
                in_grid(grid_view(self.board@), x, y) && #[trigger] grid_view(self.board@)[x][y]
                    ==> live@.contains(GridPosition { x: x as i16, y: y as i16 }),
            forall|i: int, j: int| 0 <= i < j < live@.len() ==> live@[i] != live@[j],
    {
        let ghost g = grid_view(self.board@);
        let w = self.board.len();
        let mut live: Vec<GridPosition> = Vec::new();
        let mut x: usize = 0;
        while x < w
            invariant
                x <= w,
                forall|i: int|
                    0 <= i < live@.len() ==> {
                        &&& in_grid(g, live@[i].x as int, live@[i].y as int)
                        &&& g[live@[i].x as int][live@[i].y as int]
                        &&& live@[i].x < x
                    },
                forall|x2: int, y2: int|
                    0 <= x2 < x && 0 <= y2 < board_height(self.board@) && #[trigger] g[x2][y2]
                        ==> live@.contains(GridPosition { x: x2 as i16, y: y2 as i16 }),
                forall|i: int, j: int| 0 <= i < j < live@.len() ==> live@[i] != live@[j],
            decreases w - x,
        {
            let height = self.board[x].len();
            let mut y: usize = 0;
            while y < height
                invariant
                    x < w,
                    y <= height,
                    forall|i: int|
                        0 <= i < live@.len() ==> {
                            &&& in_grid(g, live@[i].x as int, live@[i].y as int)
                            &&& g[live@[i].x as int][live@[i].y as int]
                            &&& (live@[i].x < x || (live@[i].x == x && live@[i].y < y))
                        },
                    forall|x2: int, y2: int|
                        0 <= x2 < w && 0 <= y2 < board_height(self.board@) && (x2 < x || (x2 == x
                            && y2 < y)) && #[trigger] g[x2][y2] ==> live@.contains(
                            GridPosition { x: x2 as i16, y: y2 as i16 },
                        ),
                    forall|i: int, j: int| 0 <= i < j < live@.len() ==> live@[i] != live@[j],
                decreases height - y,
            {
                if self.board[x][y].alive {
                    let p = GridPosition { x: x as i16, y: y as i16 };
                    let ghost before = live@;
                    live.push(p);
                    proof {
                        assert forall|x2: int, y2: int|
                            0 <= x2 < w && 0 <= y2 < board_height(self.board@) && (x2 < x || (x2
                                == x && y2 < y + 1)) && #[trigger] g[x2][y2] implies live@.contains(
                            GridPosition { x: x2 as i16, y: y2 as i16 },
                        ) by {
                            let q = GridPosition { x: x2 as i16, y: y2 as i16 };
                            if x2 == x && y2 == y {
                                assert(live@[live@.len() - 1] == q);
                            } else {
                                assert(before.contains(q));
                                let i = choose|i: int| 0 <= i < before.len() && before[i] == q;
                                assert(live@[i] == q);
                            }
                        }
                    }
                }
                y += 1;
            }
            x += 1;
        }
        live
    }
}

} // verus!
