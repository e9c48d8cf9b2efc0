//! The laws of the grid model, stated and proved over its mathematical
//! model ([`grid_view`]: a grid of booleans).

use vstd::prelude::*;

use crate::grid::all_dead;
use crate::grid::clear_grid;
use crate::grid::in_grid;
use crate::grid::live_neighbors;
use crate::grid::next_alive;
use crate::grid::step_grid;
use crate::grid::toggle_grid;

verus! {

/// A neighbor count is the exact number of live cells among the in-range
/// 8-adjacency set of `(x, y)`, and never exceeds 8.
pub proof fn lemma_neighbor_count_bounded(g: Seq<Seq<bool>>, x: int, y: int)
    ensures
        0 <= live_neighbors(g, x, y) <= 8,
{
}

/// One generation is a pure function of the prior grid alone: each cell's
/// transition reads only the snapshot `g`, never another cell's
/// post-transition value.
pub proof fn lemma_step_cell(g: Seq<Seq<bool>>, x: int, y: int)
    requires
        in_grid(g, x, y),
    ensures
        step_grid(g).len() == g.len(),
        step_grid(g)[x].len() == g[x].len(),
        step_grid(g)[x][y] == next_alive(g, x, y),
{
}

/// Stepping is deterministic: two grids that both satisfy the transition's
/// description of the same prior grid are the same grid.
pub proof fn lemma_step_deterministic(g: Seq<Seq<bool>>, r1: Seq<Seq<bool>>, r2: Seq<Seq<bool>>)
    requires
        r1 == step_grid(g),
        r2 == step_grid(g),
    ensures
        r1 == r2,
{
}

/// Birth rule: a dead cell is alive after one step exactly when it has 3
/// live neighbors; with any other count it stays dead.
pub proof fn lemma_birth_rule(g: Seq<Seq<bool>>, x: int, y: int)
    requires
        in_grid(g, x, y),
        !g[x][y],
    ensures
        step_grid(g)[x][y] <==> live_neighbors(g, x, y) == 3,
{
}

/// Survival rule: a live cell is alive after one step exactly when it has 2
/// or 3 live neighbors; with 0, 1 or 4 and more it dies.
pub proof fn lemma_survival_rule(g: Seq<Seq<bool>>, x: int, y: int)
    requires
        in_grid(g, x, y),
        g[x][y],
    ensures
        step_grid(g)[x][y] <==> (live_neighbors(g, x, y) == 2 || live_neighbors(g, x, y) == 3),
{
}

/// The grid after `n` generations.
pub open spec fn iterate_step(g: Seq<Seq<bool>>, n: nat) -> Seq<Seq<bool>>
    decreases n,
{
    if n == 0 {
        g
    } else {
        step_grid(iterate_step(g, (n - 1) as nat))
    }
}

/// An all-dead grid stays all dead for one step: every neighbor count is 0,
/// so no cell is born.
pub proof fn lemma_all_dead_step(g: Seq<Seq<bool>>)
    requires
        all_dead(g),
    ensures
        all_dead(step_grid(g)),
{
    assert forall|x: int, y: int| in_grid(step_grid(g), x, y) implies !(#[trigger] step_grid(
        g,
    )[x][y]) by {
        assert(in_grid(g, x, y));
        assert(live_neighbors(g, x, y) == 0);
    }
}

/// Clearing reaches a stable fixed point: a cleared grid followed by any
/// number of steps is still all dead.
pub proof fn lemma_clear_fixed_point(g: Seq<Seq<bool>>, n: nat)
    ensures
        all_dead(iterate_step(clear_grid(g), n)),
    decreases n,
{
    if n == 0 {
    } else {
        lemma_clear_fixed_point(g, (n - 1) as nat);
        lemma_all_dead_step(iterate_step(clear_grid(g), (n - 1) as nat));
    }
}

/// Toggling is self-inverse: flipping the same in-range cell twice gives
/// back the grid it started from.
pub proof fn lemma_toggle_self_inverse(g: Seq<Seq<bool>>, x: int, y: int)
    requires
        in_grid(g, x, y),
    ensures
        toggle_grid(toggle_grid(g, x, y), x, y) == g,
{
    assert(toggle_grid(toggle_grid(g, x, y), x, y) =~~= g);
}

} // verus!
