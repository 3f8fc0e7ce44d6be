use vstd::prelude::*;
use vstd::arithmetic::div_mod::lemma_fundamental_div_mod;

verus! {

/// 1 when (x, y) lies on the width × height grid, else 0.
pub open spec fn in_grid(width: int, height: int, x: int, y: int) -> int {
    if 0 <= x < width && 0 <= y < height {
        1
    } else {
        0
    }
}

/// 1 when (x, y) lies on the grid and the row-major `layout` has a mine there, else 0.
pub open spec fn mine_at(layout: Seq<bool>, width: int, height: int, x: int, y: int) -> int {
    if in_grid(width, height, x, y) == 1 && layout[x + y * width] {
        1
    } else {
        0
    }
}

/// The number of mines among the eight cells around (x, y), diagonals
/// included; cells off the grid count for nothing (no wrap-around).
pub open spec fn neighbor_count(layout: Seq<bool>, width: int, height: int, x: int, y: int) -> int {
    mine_at(layout, width, height, x - 1, y - 1) + mine_at(layout, width, height, x, y - 1)
        + mine_at(layout, width, height, x + 1, y - 1) + mine_at(layout, width, height, x - 1, y)
        + mine_at(layout, width, height, x + 1, y) + mine_at(layout, width, height, x - 1, y + 1)
        + mine_at(layout, width, height, x, y + 1) + mine_at(layout, width, height, x + 1, y + 1)
}

/// How many of the eight cells around (x, y) lie on the grid.
pub open spec fn neighbors_in_grid(width: int, height: int, x: int, y: int) -> int {
    in_grid(width, height, x - 1, y - 1) + in_grid(width, height, x, y - 1)
        + in_grid(width, height, x + 1, y - 1) + in_grid(width, height, x - 1, y)
        + in_grid(width, height, x + 1, y) + in_grid(width, height, x - 1, y + 1)
        + in_grid(width, height, x, y + 1) + in_grid(width, height, x + 1, y + 1)
}

/// A cell on the grid has a row-major index below width * height.
pub(crate) proof fn lemma_index_in_grid(width: int, height: int, x: int, y: int)
    requires
        0 <= x < width,
        0 <= y < height,
    ensures
        0 <= y * width,
        0 <= x + y * width < width * height,
{
    assert(0 <= y * width && x + y * width < width * height) by (nonlinear_arith)
        requires
            0 <= x < width,
            0 <= y < height,
    ;
}

/// An index below width * height is the row-major index of the cell
/// (index % width, index / width), which lies on the grid.
pub(crate) proof fn lemma_coords_of_index(width: int, height: int, index: int)
    requires
        0 <= width,
        0 <= height,
        0 <= index < width * height,
    ensures
        width > 0,
        0 <= index % width < width,
        0 <= index / width < height,
        index == index % width + (index / width) * width,
{
    if width == 0 {
        assert(width * height == 0) by (nonlinear_arith)
            requires
                width == 0,
        ;
    }
    lemma_fundamental_div_mod(index, width);
    let q = index / width;
    let r = index % width;
    assert(0 <= r < width);
    assert(index == r + q * width) by (nonlinear_arith)
        requires
            index == width * q + r,
    ;
    assert(0 <= q < height) by (nonlinear_arith)
        requires
            index == r + q * width,
            0 <= r < width,
            0 <= index < width * height,
            width > 0,
    ;
}

/// 1 when the cell (x, y) of the grid holds a mine, else 0.
fn mine_at_cell(layout: &Vec<bool>, width: usize, height: usize, x: usize, y: usize) -> (r: usize)
    requires
        layout.len() == width * height,
        x < width,
        y < height,
    ensures
        r == mine_at(layout@, width as int, height as int, x as int, y as int),
{
    proof {
        lemma_index_in_grid(width as int, height as int, x as int, y as int);
    }
    if layout[x + y * width] {
        1
    } else {
        0
    }
}

/// Counts the mines around the cell whose row-major index is `index`.
pub(crate) fn num_mine_neighbors(layout: &Vec<bool>, width: usize, height: usize, index: usize) -> (n: usize)
    requires
        layout.len() == width * height,
        index < layout.len(),
    ensures
        n == neighbor_count(
            layout@,
            width as int,
            height as int,
            index as int % width as int,
            index as int / width as int,
        ),
{
    proof {
        lemma_coords_of_index(width as int, height as int, index as int);
    }
    let x = index % width;
    let y = index / width;
    let has_left = x > 0;
    let has_upper = y > 0;
    let has_right = x + 1 < width;
    let has_lower = y + 1 < height;

    let mut n: usize = 0;
    if has_left && has_upper {
        n = n + mine_at_cell(layout, width, height, x - 1, y - 1);
    }
    if has_upper {
        n = n + mine_at_cell(layout, width, height, x, y - 1);
    }
    if has_right && has_upper {
        n = n + mine_at_cell(layout, width, height, x + 1, y - 1);
    }
    if has_left {
        n = n + mine_at_cell(layout, width, height, x - 1, y);
    }
    if has_right {
        n = n + mine_at_cell(layout, width, height, x + 1, y);
    }
    if has_left && has_lower {
        n = n + mine_at_cell(layout, width, height, x - 1, y + 1);
    }
    if has_lower {
        n = n + mine_at_cell(layout, width, height, x, y + 1);
    }
    if has_right && has_lower {
        n = n + mine_at_cell(layout, width, height, x + 1, y + 1);
    }
    n
}

} // verus!
