use crate::universe::gen_n;
use crate::universe::grid_wf;
use crate::universe::lemma_index_in_grid;
use crate::universe::lemma_row_major_inverse;
use crate::universe::live_at;
use crate::universe::live_neighbors;
use crate::universe::next_gen;
use crate::universe::next_state;
use crate::universe::Cell;
use crate::universe::GridView;
use vstd::prelude::*;

verus! {

/// Every generation has as many cells as the current one: advancing the
/// grid never changes the buffer's length, so a well-formed universe keeps
/// `width * height` cells forever.
pub proof fn lemma_next_gen_len(g: GridView)
    ensures
        next_gen(g).len() == g.cells.len(),
{
}

/// The next generation, read at one grid position: the cell at
/// `(row, col)` becomes the successor of its current state under its
/// current live-neighbor count.
pub proof fn lemma_next_gen_at(g: GridView, row: int, col: int)
    requires
        grid_wf(g),
        0 <= row < g.height,
        0 <= col < g.width,
    ensures
        next_gen(g)[row * g.width + col] == next_state(
            g.cells[row * g.width + col],
            live_neighbors(g, row, col),
        ),
{
    lemma_index_in_grid(row, col, g.width, g.height);
    lemma_row_major_inverse(row, col, g.width);
}

/// Determinism: two grids with the same dimensions and the same cell buffer
/// produce the same buffer after any equal number of generations.
pub proof fn lemma_deterministic(a: GridView, b: GridView, n: nat)
    requires
        a.width == b.width,
        a.height == b.height,
        a.cells == b.cells,
    ensures
        gen_n(a, n) == gen_n(b, n),
{
    assert(a =~= b);
}

/// A still life persists: a grid whose next generation equals its current
/// buffer is left unchanged by any number of further generations.
pub proof fn lemma_still_life(g: GridView, n: nat)
    requires
        next_gen(g) == g.cells,
    ensures
        gen_n(g, n) == g.cells,
    decreases n,
{
    if n > 0 {
        lemma_still_life(g, (n - 1) as nat);
        assert(GridView { cells: gen_n(g, (n - 1) as nat), ..g } =~= g);
    }
}

/// Toroidal adjacency at the origin: the eight neighbors of cell `(0, 0)`
/// are the cells at `(height-1, width-1)`, `(height-1, 0)`, `(height-1, 1)`,
/// `(0, width-1)`, `(0, 1)`, `(1, width-1)`, `(1, 0)` and `(1, 1)`, so the
/// count at the origin is the number of live cells among exactly those.
pub proof fn lemma_toroidal_adjacency(g: GridView)
    requires
        grid_wf(g),
        2 <= g.width,
        2 <= g.height,
    ensures
        live_neighbors(g, 0, 0) == live_at(g, g.height - 1, g.width - 1) + live_at(
            g,
            g.height - 1,
            0,
        ) + live_at(g, g.height - 1, 1) + live_at(g, 0, g.width - 1) + live_at(g, 0, 1) + live_at(
            g,
            1,
            g.width - 1,
        ) + live_at(g, 1, 0) + live_at(g, 1, 1),
{
}

/// Birth rule: a dead cell with exactly three live neighbors is alive in
/// the next generation; with any other count it stays dead.
pub proof fn lemma_birth_rule(g: GridView, row: int, col: int)
    requires
        grid_wf(g),
        0 <= row < g.height,
        0 <= col < g.width,
        g.cells[row * g.width + col] == Cell::Dead,
    ensures
        live_neighbors(g, row, col) == 3 ==> next_gen(g)[row * g.width + col] == Cell::Alive,
        live_neighbors(g, row, col) != 3 ==> next_gen(g)[row * g.width + col] == Cell::Dead,
{
    lemma_next_gen_at(g, row, col);
}

/// Death and survival rules: a live cell with fewer than two live neighbors
/// dies of underpopulation, one with more than three dies of
/// overpopulation, and one with two or three survives.
pub proof fn lemma_death_rules(g: GridView, row: int, col: int)
    requires
        grid_wf(g),
        0 <= row < g.height,
        0 <= col < g.width,
        g.cells[row * g.width + col] == Cell::Alive,
    ensures
        live_neighbors(g, row, col) < 2 ==> next_gen(g)[row * g.width + col] == Cell::Dead,
        2 <= live_neighbors(g, row, col) <= 3 ==> next_gen(g)[row * g.width + col] == Cell::Alive,
        live_neighbors(g, row, col) > 3 ==> next_gen(g)[row * g.width + col] == Cell::Dead,
{
    lemma_next_gen_at(g, row, col);
}

} // verus!
