use vstd::prelude::*;
use vstd::arithmetic::div_mod::lemma_fundamental_div_mod_converse;
use vstd::set_lib::set_int_range;
use crate::board::{cells_where, Board};
use crate::grid::{lemma_index_in_grid, neighbor_count, neighbors_in_grid};
use crate::tile::TileValue;

verus! {

/// On every well-formed board exactly `mines` tiles are mines, and the
/// mines form a set of indices inside `[0, width * height)`.
pub proof fn lemma_mine_count(b: Board)
    requires
        b.wf(),
    ensures
        cells_where(b.mine_layout()).len() == b.spec_mines(),
        cells_where(b.mine_layout()).subset_of(
            set_int_range(0, b.spec_width() * b.spec_height()),
        ),
        b.spec_mines() <= b.spec_width() * b.spec_height(),
{
    crate::board::lemma_cells_where_bounded(b.mine_layout());
}

/// Every tile that is not a mine holds the number of mines among the
/// on-grid cells of its eight-cell neighbourhood.
pub proof fn lemma_neighbor_value(b: Board, x: int, y: int)
    requires
        b.wf(),
        0 <= x < b.spec_width(),
        0 <= y < b.spec_height(),
        b.tile_at(x, y).value_spec() != TileValue::Mine,
    ensures
        b.tile_at(x, y).value_spec() == TileValue::Neighbored(
            neighbor_count(b.mine_layout(), b.spec_width() as int, b.spec_height() as int, x, y)
                as usize,
        ),
{
    let w = b.spec_width() as int;
    let i = x + y * w;
    lemma_index_in_grid(w, b.spec_height() as int, x, y);
    lemma_fundamental_div_mod_converse(i, w, y, x);
    assert(b.spec_tiles()[i] == b.tile_at(x, y));
}

/// A corner tile has at most 3 neighbours on the grid, an edge tile at most
/// 5, any tile at most 8; a tile that is not a mine counts no more mines
/// than it has neighbours on the grid.
pub proof fn lemma_border_counts(b: Board, x: int, y: int)
    requires
        b.wf(),
        0 <= x < b.spec_width(),
        0 <= y < b.spec_height(),
    ensures
        ({
            let w = b.spec_width() as int;
            let h = b.spec_height() as int;
            &&& neighbors_in_grid(w, h, x, y) <= 8
            &&& ((x == 0 || x == w - 1) && (y == 0 || y == h - 1)) ==> neighbors_in_grid(w, h, x, y) <= 3
            &&& (x == 0 || x == w - 1 || y == 0 || y == h - 1) ==> neighbors_in_grid(w, h, x, y) <= 5
        }),
        b.tile_at(x, y).value_spec() matches TileValue::Neighbored(n) ==> n <= neighbors_in_grid(
            b.spec_width() as int,
            b.spec_height() as int,
            x,
            y,
        ),
{
    if b.tile_at(x, y).value_spec() != TileValue::Mine {
        lemma_neighbor_value(b, x, y);
    }
}

/// After a successful `flag` at (x, y), a second `flag` at (x, y) fails and
/// leaves the board, its counters included, unchanged.
pub proof fn lemma_flag_twice(
    b0: Board,
    b1: Board,
    b2: Board,
    x: usize,
    y: usize,
    r1: Option<()>,
    r2: Option<()>,
)
    requires
        b0.wf(),
        Board::flag_post(b0, b1, x, y, r1),
        r1 is Some,
        Board::flag_post(b1, b2, x, y, r2),
    ensures
        r2 is None,
        b2 == b1,
        b2.spec_turn() == b1.spec_turn(),
        b2.spec_active_mines() == b1.spec_active_mines(),
{
}

/// As long as no more tiles are flagged than there are mines, the active
/// mines and the flagged tiles add up to the mines.
pub proof fn lemma_flags_balance(b: Board)
    requires
        b.wf(),
        b.flag_count() <= b.spec_mines(),
    ensures
        b.spec_active_mines() + b.flag_count() == b.spec_mines(),
{
}

} // verus!
