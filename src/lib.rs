//! A Minesweeper board: a rectangular grid of tiles, some of them mines, with
//! per-tile flag / open state and the number of mines around each safe tile.

mod board;
mod grid;
mod laws;
mod tile;

pub use board::{cell_value, cells_where, Board};
pub use grid::{in_grid, mine_at, neighbor_count, neighbors_in_grid};
pub use laws::{
    lemma_border_counts, lemma_flag_twice, lemma_flags_balance, lemma_mine_count, lemma_neighbor_value,
};
pub use tile::{Tile, TileStatus, TileValue};
