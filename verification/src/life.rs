//! The simulation engine: the neighbour rule and the generation step.
//!
//! A generation is computed against a read-only snapshot and written into a
//! grid built fresh (double buffering), so no neighbour count ever sees a
//! half-updated state; the commit then replaces the whole grid at once.

use vstd::prelude::*;
use crate::grid::{Grid, ALIVE, DEAD, is_live, valid_cell};

verus! {

/// 1 when `(y, x)` is inside `g` and live, else 0. Coordinates outside the
/// grid simply do not exist and are never counted (no wraparound).
pub open spec fn live_contrib(g: Seq<Seq<u8>>, y: int, x: int) -> int {
    if 0 <= y < g.len() && 0 <= x < g[y].len() && is_live(g[y][x]) {
        1int
    } else {
        0int
    }
}

/// How many of the up-to-8 neighbours of `(y, x)` are live, the centre cell
/// excluded. Edge and corner cells have fewer than 8 neighbours.
pub open spec fn spec_live_neighbours(g: Seq<Seq<u8>>, y: int, x: int) -> int {
    live_contrib(g, y - 1, x - 1) + live_contrib(g, y - 1, x) + live_contrib(g, y - 1, x + 1)
        + live_contrib(g, y, x - 1) + live_contrib(g, y, x + 1) + live_contrib(g, y + 1, x - 1)
        + live_contrib(g, y + 1, x) + live_contrib(g, y + 1, x + 1)
}

/// The Conway rule for one cell, decided entirely on generation N:
/// a live cell survives with 2 or 3 live neighbours and dies of under- or
/// overpopulation otherwise; a dead cell comes alive with exactly 3.
pub open spec fn spec_next_cell(g: Seq<Seq<u8>>, y: int, x: int) -> u8 {
    let n = spec_live_neighbours(g, y, x);
    if is_live(g[y][x]) {
        if n < 2 || n > 3 {
            DEAD
        } else {
            ALIVE
        }
    } else {
        if n == 3 {
            ALIVE
        } else {
            DEAD
        }
    }
}

/// Generation N+1 as a whole: every cell of `g` stepped by the rule, each
/// decided on `g` alone.
pub open spec fn spec_next_grid(g: Seq<Seq<u8>>) -> Seq<Seq<u8>> {
    g.map(|y: int, row: Seq<u8>| row.map(|x: int, c: u8| spec_next_cell(g, y, x)))
}

/// Count the live neighbours of `(y, x)`: the 3-by-3 neighbourhood clamped to
/// the grid bounds, the centre cell excluded.
pub fn count_live_neighbours(g: &Grid, y: usize, x: usize) -> (n: u8)
    requires
        g.wf(),
        y < g.rows,
        x < g.cols,
    ensures
        n as int == spec_live_neighbours(g@, y as int, x as int),
        n <= 8,
{
    let mut n: u8 = 0;
    if y > 0 {
        if x > 0 && g.get(y - 1, x - 1) != DEAD {
            n = n + 1;
        }
        if g.get(y - 1, x) != DEAD {
            n = n + 1;
        }
        if x + 1 < g.cols && g.get(y - 1, x + 1) != DEAD {
            n = n + 1;
        }
    }
    if x > 0 && g.get(y, x - 1) != DEAD {
        n = n + 1;
    }
    if x + 1 < g.cols && g.get(y, x + 1) != DEAD {
        n = n + 1;
    }
    if y + 1 < g.rows {
        if x > 0 && g.get(y + 1, x - 1) != DEAD {
            n = n + 1;
        }
        if g.get(y + 1, x) != DEAD {
            n = n + 1;
        }
        if x + 1 < g.cols && g.get(y + 1, x + 1) != DEAD {
            n = n + 1;
        }
    }
    n
}

/// Step one cell by the rule, reading only the given (current) grid.
pub fn next_cell(g: &Grid, y: usize, x: usize) -> (c: u8)
    requires
        g.wf(),
        y < g.rows,
        x < g.cols,
    ensures
        c == spec_next_cell(g@, y as int, x as int),
        valid_cell(c),
{
    let n = count_live_neighbours(g, y, x);
    let cur = g.get(y, x);
    if cur != DEAD {
        if n < 2 {
            // Underpopulation
            DEAD
        } else if n > 3 {
            // Overpopulation
            DEAD
        } else {
            // Survival
            ALIVE
        }
    } else {
        if n == 3 {
            // Reproduction
            ALIVE
        } else {
            DEAD
        }
    }
}

/// Compute generation N+1 into a fresh grid, reading the current grid only.
/// Every output cell is decided on the input as it stands, so the result is
/// the buffered (uncorrupted) automaton whatever the scan order.
pub fn next_generation(g: &Grid) -> (out: Grid)
    requires
        g.wf(),
    ensures
        out.wf(),
        out.rows == g.rows,
        out.cols == g.cols,
        out@ == spec_next_grid(g@),
        forall|y: int, x: int|
            0 <= y < g.rows && 0 <= x < g.cols ==> out@[y][x] == spec_next_cell(g@, y, x),
{
    let rows = g.rows;
    let cols = g.cols;
    let mut cells: Vec<Vec<u8>> = Vec::new();
    let mut y: usize = 0;
    while y < rows
        invariant
            y <= rows,
            g.wf(),
            rows == g.rows,
            cols == g.cols,
            cells@.len() == y,
            forall|i: int| 0 <= i < y ==> (#[trigger] cells@[i])@.len() == cols,
            forall|i: int, j: int|
                0 <= i < y && 0 <= j < cols ==> #[trigger] cells@[i]@[j] == spec_next_cell(
                    g@,
                    i,
                    j,
                ),
        decreases rows - y,
    {
        let mut row: Vec<u8> = Vec::new();
        let mut x: usize = 0;
        while x < cols
            invariant
                x <= cols,
                y < rows,
                g.wf(),
                rows == g.rows,
                cols == g.cols,
                row@.len() == x,
                forall|j: int|
                    0 <= j < x ==> #[trigger] row@[j] == spec_next_cell(g@, y as int, j),
            decreases cols - x,
        {
            row.push(next_cell(g, y, x));
            x = x + 1;
        }
        cells.push(row);
        y = y + 1;
    }
    let out = Grid { rows, cols, cells };
    proof {
        assert forall|i: int| 0 <= i < rows implies out@[i] =~= spec_next_grid(g@)[i] by {
            assert(out@[i] == out.cells@[i]@);
        }
        assert(out@ =~~= spec_next_grid(g@));
    }
    out
}

/// Commit one generation: replace the grid with its successor, computed
/// against the old contents alone.
pub fn advance_generation(g: &mut Grid)
    requires
        old(g).wf(),
    ensures
        final(g).wf(),
        final(g).rows == old(g).rows,
        final(g).cols == old(g).cols,
        final(g)@ == spec_next_grid(old(g)@),
{
    let next = next_generation(g);
    *g = next;
}

/// Extinction: a live cell with at most one live neighbour is dead in the
/// next generation, wherever it sits on the grid.
pub proof fn lemma_extinction(g: Seq<Seq<u8>>, y: int, x: int)
    requires
        0 <= y < g.len(),
        0 <= x < g[y].len(),
        is_live(g[y][x]),
        spec_live_neighbours(g, y, x) <= 1,
    ensures
        spec_next_cell(g, y, x) == DEAD,
{
}

/// Determinism: one generation is a function of the grid contents alone, so
/// equal grids step to equal grids; the rule itself hides no randomness.
pub proof fn lemma_generation_deterministic(a: Seq<Seq<u8>>, b: Seq<Seq<u8>>)
    requires
        a == b,
    ensures
        spec_next_grid(a) == spec_next_grid(b),
{
}

} // verus!
