//! The grid of cells: the authoritative simulation state.
//!
//! Each cell is stored as the character that the front end draws for it, so a
//! commit to the screen is a plain copy of this grid. The terminal surface is
//! only an output sink; nothing is ever read back from it.

use vstd::prelude::*;

verus! {

/// The character stored in (and drawn for) a live cell.
pub const ALIVE: u8 = 79;

/// The character stored in (and drawn for) a dead cell.
pub const DEAD: u8 = 32;

/// A cell counts as live whenever it holds anything but the dead marker.
pub open spec fn is_live(c: u8) -> bool {
    c != DEAD
}

/// The grid only ever holds the two cell markers.
pub open spec fn valid_cell(c: u8) -> bool {
    c == ALIVE || c == DEAD
}

/// `new_g` is `old_g` resized to `rows` by `cols`: the overlap kept, newly
/// exposed cells dead.
pub open spec fn resized_from(new_g: Grid, old_g: Grid, rows: usize, cols: usize) -> bool {
    &&& new_g.wf()
    &&& new_g.rows == rows
    &&& new_g.cols == cols
    &&& forall|y: int, x: int|
        0 <= y < rows && 0 <= x < cols ==> new_g@[y][x] == (if y < old_g.rows && x < old_g.cols {
            old_g@[y][x]
        } else {
            DEAD
        })
}

/// A rectangular grid of cell characters, `rows` by `cols`.
///
/// Two grids coexist transiently while a generation is computed: the current
/// one, read only, and the next one, built fresh; see `life::next_generation`.
#[derive(Clone, PartialEq, Eq, Debug)]
pub struct Grid {
    pub rows: usize,
    pub cols: usize,
    pub cells: Vec<Vec<u8>>,
}

impl View for Grid {
    type V = Seq<Seq<u8>>;

    open spec fn view(&self) -> Seq<Seq<u8>> {
        self.cells@.map(|y: int, row: Vec<u8>| row@)
    }
}

impl Grid {
    /// The shape matches the stored dimensions and every cell is a marker.
    pub open spec fn wf(&self) -> bool {
        &&& self@.len() == self.rows
        &&& forall|y: int| 0 <= y < self.rows ==> (#[trigger] self@[y]).len() == self.cols
        &&& forall|y: int, x: int|
            0 <= y < self.rows && 0 <= x < self.cols ==> valid_cell(#[trigger] self@[y][x])
    }

    /// A grid of the given size with every cell dead.
    pub fn new(rows: usize, cols: usize) -> (g: Grid)
        ensures
            g.wf(),
            g.rows == rows,
            g.cols == cols,
            forall|y: int, x: int| 0 <= y < rows && 0 <= x < cols ==> g@[y][x] == DEAD,
    {
        let mut cells: Vec<Vec<u8>> = Vec::new();
        let mut y: usize = 0;
        while y < rows
            invariant
                y <= rows,
                cells@.len() == y,
                forall|i: int| 0 <= i < y ==> (#[trigger] cells@[i])@.len() == cols,
                forall|i: int, j: int|
                    0 <= i < y && 0 <= j < cols ==> #[trigger] cells@[i]@[j] == DEAD,
            decreases rows - y,
        {
            let mut row: Vec<u8> = Vec::new();
            let mut x: usize = 0;
            while x < cols
                invariant
                    x <= cols,
                    row@.len() == x,
                    forall|j: int| 0 <= j < x ==> #[trigger] row@[j] == DEAD,
                decreases cols - x,
            {
                row.push(DEAD);
                x = x + 1;
            }
            cells.push(row);
            y = y + 1;
        }
        Grid { rows, cols, cells }
    }

    /// The cell character at `(y, x)`.
    pub fn get(&self, y: usize, x: usize) -> (c: u8)
        requires
            self.wf(),
            y < self.rows,
            x < self.cols,
        ensures
            c == self@[y as int][x as int],
            valid_cell(c),
    {
        proof {
            assert(self.cells@.len() == self@.len());
            assert(self@[y as int] == self.cells@[y as int]@);
        }
        self.cells[y][x]
    }

    /// Write the cell character at `(y, x)`.
    pub fn set(&mut self, y: usize, x: usize, c: u8)
        requires
            old(self).wf(),
            y < old(self).rows,
            x < old(self).cols,
            valid_cell(c),
        ensures
            final(self).wf(),
            final(self).rows == old(self).rows,
            final(self).cols == old(self).cols,
            final(self)@ == old(self)@.update(
                y as int,
                old(self)@[y as int].update(x as int, c),
            ),
    {
        proof {
            assert(self.cells@.len() == self@.len());
            assert(self@[y as int] == self.cells@[y as int]@);
        }
        self.cells[y][x] = c;
        proof {
            assert(self@ =~~= old(self)@.update(
                y as int,
                old(self)@[y as int].update(x as int, c),
            ));
        }
    }

    /// Resize to `rows` by `cols`, as when the terminal viewport changes.
    /// Cells inside both the old and the new bounds keep their state; cells
    /// newly exposed start dead. (The front end resizes both of its surfaces
    /// together; this grid is the only authoritative copy.)
    pub fn resize(&mut self, rows: usize, cols: usize)
        requires
            old(self).wf(),
        ensures
            resized_from(*final(self), *old(self), rows, cols),
    {
        let mut cells: Vec<Vec<u8>> = Vec::new();
        let mut y: usize = 0;
        while y < rows
            invariant
                y <= rows,
                self.wf(),
                self@ == old(self)@,
                self.rows == old(self).rows,
                self.cols == old(self).cols,
                cells@.len() == y,
                forall|i: int| 0 <= i < y ==> (#[trigger] cells@[i])@.len() == cols,
                forall|i: int, j: int|
                    0 <= i < y && 0 <= j < cols ==> #[trigger] cells@[i]@[j] == (if i < old(
                        self,
                    ).rows && j < old(self).cols {
                        old(self)@[i][j]
                    } else {
                        DEAD
                    }),
            decreases rows - y,
        {
            let mut row: Vec<u8> = Vec::new();
            let mut x: usize = 0;
            while x < cols
                invariant
                    x <= cols,
                    y < rows,
                    self.wf(),
                    self@ == old(self)@,
                    self.rows == old(self).rows,
                    self.cols == old(self).cols,
                    row@.len() == x,
                    forall|j: int|
                        0 <= j < x ==> #[trigger] row@[j] == (if y < old(self).rows && j < old(
                            self,
                        ).cols {
                            old(self)@[y as int][j]
                        } else {
                            DEAD
                        }),
                decreases cols - x,
            {
                let c = if y < self.rows && x < self.cols {
                    self.get(y, x)
                } else {
                    DEAD
                };
                row.push(c);
                x = x + 1;
            }
            cells.push(row);
            y = y + 1;
        }
        self.rows = rows;
        self.cols = cols;
        self.cells = cells;
    }
}

} // verus!
