//! Initial patterns: a random fill, or a fixed cluster near the centre.

use vstd::prelude::*;
use crate::grid::{Grid, ALIVE, DEAD, valid_cell};

verus! {

/// Relies on `rand::random::<bool>`: one fresh draw from the thread-local
/// generator. Nothing can be promised of the value.
#[verifier::external_body]
fn random_bool() -> bool {
    rand::random()
}

/// Fill every cell at random: live or dead with each draw. Which cells come
/// out live is up to the generator; the shape and the markers are not.
pub fn randomize(g: &mut Grid)
    requires
        old(g).wf(),
    ensures
        final(g).wf(),
        final(g).rows == old(g).rows,
        final(g).cols == old(g).cols,
{
    let rows = g.rows;
    let cols = g.cols;
    let mut cells: Vec<Vec<u8>> = Vec::new();
    let mut y: usize = 0;
    while y < rows
        invariant
            y <= rows,
            cells@.len() == y,
            forall|i: int| 0 <= i < y ==> (#[trigger] cells@[i])@.len() == cols,
            forall|i: int, j: int|
                0 <= i < y && 0 <= j < cols ==> valid_cell(#[trigger] cells@[i]@[j]),
        decreases rows - y,
    {
        let mut row: Vec<u8> = Vec::new();
        let mut x: usize = 0;
        while x < cols
            invariant
                x <= cols,
                row@.len() == x,
                forall|j: int| 0 <= j < x ==> valid_cell(#[trigger] row@[j]),
            decreases cols - x,
        {
            let c = if random_bool() {
                ALIVE
            } else {
                DEAD
            };
            row.push(c);
            x = x + 1;
        }
        cells.push(row);
        y = y + 1;
    }
    g.rows = rows;
    g.cols = cols;
    g.cells = cells;
}

/// The distance between two coordinates.
pub open spec fn dist(a: int, b: int) -> int {
    if a >= b {
        a - b
    } else {
        b - a
    }
}

/// The fixed starting cluster: a 7-by-7 square centred on the grid's centre
/// cell, with the centre row and centre column left dead.
pub open spec fn in_cluster(rows: int, cols: int, y: int, x: int) -> bool {
    &&& 1 <= dist(y, rows / 2) <= 3
    &&& 1 <= dist(x, cols / 2) <= 3
}

/// Make every cluster cell that lies inside the grid live; leave the rest of
/// the grid as it was. Cluster cells that fall outside the bounds are skipped.
pub fn seed_cluster(g: &mut Grid)
    requires
        old(g).wf(),
    ensures
        final(g).wf(),
        final(g).rows == old(g).rows,
        final(g).cols == old(g).cols,
        forall|y: int, x: int|
            0 <= y < old(g).rows && 0 <= x < old(g).cols ==> final(g)@[y][x] == (if in_cluster(
                old(g).rows as int,
                old(g).cols as int,
                y,
                x,
            ) {
                ALIVE
            } else {
                old(g)@[y][x]
            }),
{
    let rows = g.rows;
    let cols = g.cols;
    let cy = rows / 2;
    let cx = cols / 2;
    let mut cells: Vec<Vec<u8>> = Vec::new();
    let mut y: usize = 0;
    while y < rows
        invariant
            y <= rows,
            g.wf(),
            g@ == old(g)@,
            g.rows == rows,
            g.cols == cols,
            old(g).wf(),
            cy == rows / 2,
            cx == cols / 2,
            cells@.len() == y,
            forall|i: int| 0 <= i < y ==> (#[trigger] cells@[i])@.len() == cols,
            forall|i: int, j: int|
                0 <= i < y && 0 <= j < cols ==> #[trigger] cells@[i]@[j] == (if in_cluster(
                    rows as int,
                    cols as int,
                    i,
                    j,
                ) {
                    ALIVE
                } else {
                    old(g)@[i][j]
                }),
        decreases rows - y,
    {
        let mut row: Vec<u8> = Vec::new();
        let mut x: usize = 0;
        while x < cols
            invariant
                x <= cols,
                y < rows,
                g.wf(),
                g@ == old(g)@,
                g.rows == rows,
                g.cols == cols,
                old(g).wf(),
                cy == rows / 2,
                cx == cols / 2,
                row@.len() == x,
                forall|j: int|
                    0 <= j < x ==> #[trigger] row@[j] == (if in_cluster(
                        rows as int,
                        cols as int,
                        y as int,
                        j,
                    ) {
                        ALIVE
                    } else {
                        old(g)@[y as int][j]
                    }),
            decreases cols - x,
        {
            let dy = if y >= cy {
                y - cy
            } else {
                cy - y
            };
            let dx = if x >= cx {
                x - cx
            } else {
                cx - x
            };
            let c = if 1 <= dy && dy <= 3 && 1 <= dx && dx <= 3 {
                ALIVE
            } else {
                g.get(y, x)
            };
            row.push(c);
            x = x + 1;
        }
        cells.push(row);
        y = y + 1;
    }
    g.cells = cells;
}

} // verus!
