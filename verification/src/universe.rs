use vstd::arithmetic::div_mod::lemma_fundamental_div_mod_converse;
use vstd::prelude::*;

verus! {

/// The state of one grid cell: alive or dead. No other states exist.
#[derive(Clone, Copy, Debug, PartialEq, Eq, Structural)]
pub enum Cell {
    Dead,
    Alive,
}

/// The one way construction can fail: the supplied dimensions are not both
/// positive, or the supplied buffer's length is not `width * height`.
#[derive(Clone, Copy, Debug, PartialEq, Eq, Structural)]
pub enum UniverseError {
    InvalidDimensions,
}

/// The mathematical model of a universe: its dimensions and its cell buffer
/// as a flat, row-major sequence (the cell at `(row, col)` sits at index
/// `row * width + col`).
#[verifier::ext_equal]
pub ghost struct GridView {
    pub width: int,
    pub height: int,
    pub cells: Seq<Cell>,
}

/// A well-formed grid: positive dimensions and a buffer of exactly
/// `width * height` cells.
pub open spec fn grid_wf(g: GridView) -> bool {
    &&& 1 <= g.width
    &&& 1 <= g.height
    &&& g.cells.len() == g.width * g.height
}

/// One step toward the previous row or column, wrapping past the edge:
/// position 0 is preceded by position `n - 1`.
pub open spec fn wrap_dec(i: int, n: int) -> int {
    if i == 0 {
        n - 1
    } else {
        i - 1
    }
}

/// One step toward the next row or column, wrapping past the edge:
/// position `n - 1` is followed by position 0.
pub open spec fn wrap_inc(i: int, n: int) -> int {
    if i == n - 1 {
        0
    } else {
        i + 1
    }
}

/// 1 if the cell at `(row, col)` is alive, 0 otherwise.
pub open spec fn live_at(g: GridView, row: int, col: int) -> int {
    if g.cells[row * g.width + col] == Cell::Alive {
        1
    } else {
        0
    }
}

/// The number of live cells among the eight toroidal neighbors of
/// `(row, col)`: the combinations of the previous, same and next row and
/// column, wrapped past the edges, with the cell itself excluded.
pub open spec fn live_neighbors(g: GridView, row: int, col: int) -> int {
    let above = wrap_dec(row, g.height);
    let below = wrap_inc(row, g.height);
    let left = wrap_dec(col, g.width);
    let right = wrap_inc(col, g.width);
    live_at(g, above, left) + live_at(g, above, col) + live_at(g, above, right) + live_at(
        g,
        row,
        left,
    ) + live_at(g, row, right) + live_at(g, below, left) + live_at(g, below, col) + live_at(
        g,
        below,
        right,
    )
}

/// The standard transition rule, applied independently to each cell:
/// a live cell survives with two or three live neighbors and otherwise dies
/// (underpopulation or overpopulation); a dead cell comes alive with exactly
/// three live neighbors and otherwise stays dead.
pub open spec fn next_state(cell: Cell, live_neighbors: int) -> Cell {
    match cell {
        Cell::Alive => if 2 <= live_neighbors <= 3 {
            Cell::Alive
        } else {
            Cell::Dead
        },
        Cell::Dead => if live_neighbors == 3 {
            Cell::Alive
        } else {
            Cell::Dead
        },
    }
}

/// The entire next generation: every cell's successor state, computed from
/// the current generation only.
pub open spec fn next_gen(g: GridView) -> Seq<Cell> {
    Seq::new(
        g.cells.len(),
        |i: int| next_state(g.cells[i], live_neighbors(g, i / g.width, i % g.width)),
    )
}

/// The buffer after `n` generations.
pub open spec fn gen_n(g: GridView, n: nat) -> Seq<Cell>
    decreases n,
{
    if n == 0 {
        g.cells
    } else {
        next_gen(GridView { cells: gen_n(g, (n - 1) as nat), ..g })
    }
}

/// Every position of a well-formed grid maps to an index inside the buffer:
/// `row * width + col` lies strictly below `width * height`.
pub proof fn lemma_index_in_grid(row: int, col: int, width: int, height: int)
    requires
        0 <= row < height,
        0 <= col < width,
    ensures
        0 <= row * width + col < width * height,
{
    assert(0 <= row * width + col < width * height) by (nonlinear_arith)
        requires
            0 <= row < height,
            0 <= col < width,
    ;
}

/// Row-major indexing is invertible: dividing an index by the width recovers
/// the row, and the remainder recovers the column.
pub proof fn lemma_row_major_inverse(row: int, col: int, width: int)
    requires
        0 <= row,
        0 <= col < width,
    ensures
        (row * width + col) / width == row,
        (row * width + col) % width == col,
{
    lemma_fundamental_div_mod_converse(row * width + col, width, row, col);
}

/// The seed pattern of the default universe: every third cell starts alive.
pub open spec fn seed_cell(i: int) -> Cell {
    if i % 3 == 0 {
        Cell::Alive
    } else {
        Cell::Dead
    }
}

/// A Game of Life universe: fixed positive dimensions and the current
/// generation's cells in a flat, row-major buffer of length
/// `width * height`. The grid topology is toroidal: row and column
/// arithmetic wraps, so row 0 is adjacent to row `height - 1` and column 0
/// to column `width - 1`.
pub struct Universe {
    width: u32,
    height: u32,
    cells: Vec<Cell>,
}

impl View for Universe {
    type V = GridView;

    closed spec fn view(&self) -> GridView {
        GridView {
            width: self.width as int,
            height: self.height as int,
            cells: self.cells@,
        }
    }
}

impl Universe {
    /// A universe holds a valid generation: positive dimensions and exactly
    /// `width * height` cells.
    pub open spec fn wf(self) -> bool {
        grid_wf(self@)
    }

    /// Builds the default 64-by-64 universe with its deterministic seed
    /// pattern: every third cell alive, the rest dead.
    pub fn new() -> (u: Universe)
        ensures
            u.wf(),
            u@.width == 64,
            u@.height == 64,
            forall|i: int| 0 <= i < u@.cells.len() ==> u@.cells[i] == seed_cell(i),
    {
        let mut cells: Vec<Cell> = Vec::new();
        let mut i: u32 = 0;
        while i < 4096
            invariant
                i <= 4096,
                cells@.len() == i,
                forall|j: int| 0 <= j < i ==> cells@[j] == seed_cell(j),
            decreases 4096 - i,
        {
            if i % 3 == 0 {
                cells.push(Cell::Alive);
            } else {
                cells.push(Cell::Dead);
            }
            i = i + 1;
        }
        Universe { width: 64, height: 64, cells }
    }

    /// Builds a universe from explicit dimensions and an initial buffer.
    /// Fails with `InvalidDimensions` exactly when a dimension is zero or
    /// the buffer's length is not `width * height`.
    pub fn with_cells(width: u32, height: u32, cells: Vec<Cell>) -> (result: Result<
        Universe,
        UniverseError,
    >)
        ensures
            match result {
                Ok(u) => {
                    &&& 1 <= width
                    &&& 1 <= height
                    &&& cells@.len() == width * height
                    &&& u@.width == width
                    &&& u@.height == height
                    &&& u@.cells == cells@
                    &&& u.wf()
                },
                Err(e) => {
                    &&& e == UniverseError::InvalidDimensions
                    &&& !(1 <= width && 1 <= height && cells@.len() == width * height)
                },
            },
    {
        if width == 0 || height == 0 {
            return Err(UniverseError::InvalidDimensions);
        }
        proof {
            assert((width as int) * (height as int) < 0x1_0000_0000_0000_0000) by (nonlinear_arith)
                requires
                    width < 0x1_0000_0000,
                    height < 0x1_0000_0000,
            ;
        }
        let expected: u64 = (width as u64) * (height as u64);
        if cells.len() as u64 != expected {
            return Err(UniverseError::InvalidDimensions);
        }
        Ok(Universe { width, height, cells })
    }

    /// The number of columns, fixed for the lifetime of the universe.
    pub fn width(&self) -> (w: u32)
        ensures
            w == self@.width,
    {
        self.width
    }

    /// The number of rows, fixed for the lifetime of the universe.
    pub fn height(&self) -> (h: u32)
        ensures
            h == self@.height,
    {
        self.height
    }

    /// The current generation's buffer, row-major, of length
    /// `width * height`.
    pub fn get_cells(&self) -> (cells: &Vec<Cell>)
        ensures
            cells@ == self@.cells,
    {
        &self.cells
    }

    /// Maps a row and column to the cell's position in the flat buffer:
    /// `row * width + column`, always inside the buffer. Out-of-range
    /// coordinates are ruled out by precondition rather than wrapped or
    /// clamped: callers pass coordinates already reduced into range.
    pub fn get_index(&self, row: u32, column: u32) -> (idx: usize)
        requires
            self.wf(),
            row < self@.height,
            column < self@.width,
        ensures
            idx == row * self@.width + column,
            idx < self@.cells.len(),
    {
        let buffer_len: usize = self.cells.len();
        proof {
            lemma_index_in_grid(row as int, column as int, self@.width, self@.height);
            assert(row * self@.width + column < buffer_len);
        }
        (row as usize) * (self.width as usize) + (column as usize)
    }

    /// Reads the cell at the given coordinates of the current generation.
    pub fn cell_at(&self, row: u32, column: u32) -> (cell: Cell)
        requires
            self.wf(),
            row < self@.height,
            column < self@.width,
        ensures
            cell == self@.cells[row * self@.width + column],
    {
        let idx: usize = self.get_index(row, column);
        self.cells[idx]
    }

    /// Counts the live cells among the eight toroidal neighbors of
    /// `(row, column)`. An offset of one past an edge wraps: at row 0 the
    /// row above is row `height - 1`, and likewise for columns.
    pub fn live_neighbor_count(&self, row: u32, column: u32) -> (count: u8)
        requires
            self.wf(),
            row < self@.height,
            column < self@.width,
        ensures
            count == live_neighbors(self@, row as int, column as int),
            count <= 8,
    {
        let above: u32 = if row == 0 {
            self.height - 1
        } else {
            row - 1
        };
        let below: u32 = if row == self.height - 1 {
            0
        } else {
            row + 1
        };
        let left: u32 = if column == 0 {
            self.width - 1
        } else {
            column - 1
        };
        let right: u32 = if column == self.width - 1 {
            0
        } else {
            column + 1
        };

        let mut count: u8 = 0;
        if self.cell_at(above, left) == Cell::Alive {
            count = count + 1;
        }
        if self.cell_at(above, column) == Cell::Alive {
            count = count + 1;
        }
        if self.cell_at(above, right) == Cell::Alive {
            count = count + 1;
        }
        if self.cell_at(row, left) == Cell::Alive {
            count = count + 1;
        }
        if self.cell_at(row, right) == Cell::Alive {
            count = count + 1;
        }
        if self.cell_at(below, left) == Cell::Alive {
            count = count + 1;
        }
        if self.cell_at(below, column) == Cell::Alive {
            count = count + 1;
        }
        if self.cell_at(below, right) == Cell::Alive {
            count = count + 1;
        }
        count
    }

    /// Advances the simulation by one generation. The whole buffer is
    /// replaced at once: every next-generation cell is computed from the
    /// current generation only, so no cell ever reads an already-updated
    /// neighbor.
    pub fn tick(&mut self)
        requires
            old(self).wf(),
        ensures
            final(self).wf(),
            final(self)@.width == old(self)@.width,
            final(self)@.height == old(self)@.height,
            final(self)@.cells == next_gen(old(self)@),
    {
        let width: u32 = self.width;
        let height: u32 = self.height;
        let ghost g = self@;
        let mut next: Vec<Cell> = Vec::new();
        let mut row: u32 = 0;
        while row < height
            invariant
                *self == *old(self),
                self.wf(),
                g == self@,
                width == self@.width,
                height == self@.height,
                row <= height,
                next@.len() == row * g.width,
                forall|i: int| 0 <= i < next@.len() ==> next@[i] == #[trigger] next_gen(g)[i],
            decreases height - row,
        {
            let mut column: u32 = 0;
            while column < width
                invariant
                    *self == *old(self),
                    self.wf(),
                    g == self@,
                    width == self@.width,
                    height == self@.height,
                    row < height,
                    column <= width,
                    next@.len() == row * g.width + column,
                    forall|i: int| 0 <= i < next@.len() ==> next@[i] == #[trigger] next_gen(g)[i],
                decreases width - column,
            {
                let n: u8 = self.live_neighbor_count(row, column);
                let cell: Cell = self.cell_at(row, column);
                let successor: Cell = next_cell_state(cell, n);
                proof {
                    lemma_index_in_grid(row as int, column as int, g.width, g.height);
                    lemma_row_major_inverse(row as int, column as int, g.width);
                }
                next.push(successor);
                column = column + 1;
            }
            proof {
                assert((row + 1) * g.width == row * g.width + g.width) by (nonlinear_arith);
            }
            row = row + 1;
        }
        proof {
            assert(height as int * g.width == g.width * g.height) by (nonlinear_arith)
                requires
                    height as int == g.height,
            ;
            assert(next@ =~= next_gen(g));
        }
        self.cells = next;
    }
}

/// Computes the successor state of a single cell from its current state and
/// its live-neighbor count.
pub fn next_cell_state(cell: Cell, live_neighbors: u8) -> (next: Cell)
    ensures
        next == next_state(cell, live_neighbors as int),
{
    match cell {
        Cell::Alive => {
            if live_neighbors < 2 {
                Cell::Dead
            } else if live_neighbors <= 3 {
                Cell::Alive
            } else {
                Cell::Dead
            }
        },
        Cell::Dead => {
            if live_neighbors == 3 {
                Cell::Alive
            } else {
                Cell::Dead
            }
        },
    }
}

} // verus!
