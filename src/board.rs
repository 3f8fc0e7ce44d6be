use vstd::prelude::*;
use vstd::set_lib::{lemma_int_range, lemma_len_subset, set_int_range};
use crate::grid::{lemma_index_in_grid, neighbor_count, num_mine_neighbors};
use crate::tile::{Tile, TileStatus, TileValue};

verus! {

/// Relies on rand::seq::index::sample, drawing from rand::thread_rng: it
/// returns exactly `amount` distinct indices from `0..length`. It panics
/// when `amount > length`, and (through a debug assertion of its rejection
/// sampler) when `length` exceeds `u32::MAX` and `amount == length`.
#[verifier::external_body]
fn sample_indices(length: usize, amount: usize) -> (r: Vec<usize>)
    requires
        amount <= length,
        amount < length || length <= u32::MAX as usize,
    ensures
        r.len() == amount,
        forall|k: int| 0 <= k < r.len() ==> r[k] < length,
        r@.no_duplicates(),
{
    rand::seq::index::sample(&mut rand::thread_rng(), length, amount).into_vec()
}

/// The indices at which `layout` is true.
pub open spec fn cells_where(layout: Seq<bool>) -> Set<int> {
    Set::new(|i: int| 0 <= i < layout.len() && layout[i])
}

/// The value that the cell at row-major `index` holds under the mine `layout`.
pub open spec fn cell_value(layout: Seq<bool>, width: int, height: int, index: int) -> TileValue {
    if layout[index] {
        TileValue::Mine
    } else {
        TileValue::Neighbored(
            neighbor_count(layout, width, height, index % width, index / width) as usize,
        )
    }
}

pub(crate) proof fn lemma_cells_where_bounded(layout: Seq<bool>)
    ensures
        cells_where(layout).finite(),
        cells_where(layout).len() <= layout.len(),
        cells_where(layout).subset_of(set_int_range(0, layout.len() as int)),
{
    lemma_int_range(0, layout.len() as int);
    lemma_len_subset(cells_where(layout), set_int_range(0, layout.len() as int));
}

proof fn lemma_cells_where_insert(layout: Seq<bool>, i: int)
    requires
        0 <= i < layout.len(),
        !layout[i],
    ensures
        cells_where(layout.update(i, true)).len() == cells_where(layout).len() + 1,
{
    lemma_cells_where_bounded(layout);
    assert(cells_where(layout.update(i, true)) =~= cells_where(layout).insert(i));
}

/// A Minesweeper board of `width` × `height` tiles, stored row-major.
pub struct Board {
    tiles: Vec<Tile>,
    turn: usize,
    width: usize,
    height: usize,
    mines: usize,
    active_mines: usize,
}

impl Board {
    /// The tiles, row-major: (x, y) is at `x + y * width`.
    pub closed spec fn spec_tiles(&self) -> Seq<Tile> {
        self.tiles@
    }

    pub closed spec fn spec_turn(&self) -> usize {
        self.turn
    }

    pub closed spec fn spec_width(&self) -> usize {
        self.width
    }

    pub closed spec fn spec_height(&self) -> usize {
        self.height
    }

    pub closed spec fn spec_mines(&self) -> usize {
        self.mines
    }

    pub closed spec fn spec_active_mines(&self) -> usize {
        self.active_mines
    }

    /// The tile at (x, y).
    pub open spec fn tile_at(&self, x: int, y: int) -> Tile {
        self.spec_tiles()[x + y * self.spec_width()]
    }

    /// Whether each tile holds a mine, row-major.
    pub open spec fn mine_layout(&self) -> Seq<bool> {
        self.spec_tiles().map_values(|t: Tile| t.value_spec() == TileValue::Mine)
    }

    /// Whether each tile is flagged, row-major.
    pub open spec fn flag_layout(&self) -> Seq<bool> {
        self.spec_tiles().map_values(|t: Tile| t.status_spec() == TileStatus::Flagged)
    }

    /// The number of flagged tiles.
    pub open spec fn flag_count(&self) -> nat {
        cells_where(self.flag_layout()).len()
    }

    /// The board's invariant: `mines` tiles are mines, every other tile
    /// holds its true neighbour count, `turn` counts the flags placed and
    /// `active_mines` is `mines` less the flags, never below zero.
    pub open spec fn wf(&self) -> bool {
        &&& self.spec_tiles().len() == self.spec_width() * self.spec_height()
        &&& self.spec_width() * self.spec_height() <= usize::MAX
        &&& cells_where(self.mine_layout()).len() == self.spec_mines()
        &&& forall|i: int|
            0 <= i < self.spec_tiles().len() ==> (#[trigger] self.spec_tiles()[i]).value_spec()
                == cell_value(
                self.mine_layout(),
                self.spec_width() as int,
                self.spec_height() as int,
                i,
            )
        &&& self.spec_turn() == self.flag_count()
        &&& self.spec_active_mines() == if self.flag_count() <= self.spec_mines() {
            self.spec_mines() - self.flag_count()
        } else {
            0
        }
    }

    /// What `flag(x, y)` does: on a tile of the grid that is not flagged it
    /// flags that tile, counts a turn and takes one from `active_mines`
    /// (stopping at zero) and returns `Some`; otherwise it returns `None`
    /// and changes nothing.
    pub open spec fn flag_post(old: Board, new: Board, x: usize, y: usize, r: Option<()>) -> bool {
        if x < old.spec_width() && y < old.spec_height() && old.tile_at(x as int, y as int).status_spec()
            != TileStatus::Flagged {
            &&& r == Some(())
            &&& new.spec_width() == old.spec_width()
            &&& new.spec_height() == old.spec_height()
            &&& new.spec_mines() == old.spec_mines()
            &&& new.spec_turn() == old.spec_turn() + 1
            &&& new.spec_active_mines() == if old.spec_active_mines() > 0 {
                old.spec_active_mines() - 1
            } else {
                0
            }
            &&& new.spec_tiles().len() == old.spec_tiles().len()
            &&& new.tile_at(x as int, y as int).status_spec() == TileStatus::Flagged
            &&& new.tile_at(x as int, y as int).value_spec() == old.tile_at(
                x as int,
                y as int,
            ).value_spec()
            &&& forall|i: int|
                0 <= i < old.spec_tiles().len() && i != x + y * old.spec_width()
                    ==> #[trigger] new.spec_tiles()[i] == old.spec_tiles()[i]
        } else {
            r == None::<()> && new == old
        }
    }

    /// A board whose mines lie at `mine_indices` (row-major), all tiles blank.
    pub fn with_mines(width: usize, height: usize, mine_indices: &Vec<usize>) -> (b: Board)
        requires
            width * height <= usize::MAX,
            forall|k: int| 0 <= k < mine_indices.len() ==> mine_indices[k] < width * height,
            mine_indices@.no_duplicates(),
        ensures
            b.wf(),
            b.spec_width() == width,
            b.spec_height() == height,
            b.spec_mines() == mine_indices.len(),
            b.spec_turn() == 0,
            b.spec_active_mines() == mine_indices.len(),
            forall|i: int|
                0 <= i < width * height ==> (#[trigger] b.mine_layout()[i] <==> mine_indices@.contains(
                    i as usize,
                )),
            forall|i: int|
                0 <= i < width * height ==> (#[trigger] b.spec_tiles()[i]).status_spec()
                    == TileStatus::Blank,
    {
        let length = width * height;
        let mut layout: Vec<bool> = Vec::new();
        let mut i: usize = 0;
        while i < length
            invariant
                layout.len() == i,
                i <= length,
                forall|j: int| 0 <= j < i ==> !layout[j],
            decreases length - i,
        {
            layout.push(false);
            i = i + 1;
        }
        let mut k: usize = 0;
        while k < mine_indices.len()
            invariant
                length == width * height,
                layout.len() == length,
                k <= mine_indices.len(),
                forall|m: int| 0 <= m < mine_indices.len() ==> mine_indices[m] < length,
                forall|j: int|
                    0 <= j < length ==> (#[trigger] layout[j] <==> exists|m: int|
                        0 <= m < k && mine_indices[m] == j),
            decreases mine_indices.len() - k,
        {
            layout.set(mine_indices[k], true);
            k = k + 1;
        }
        let ghost placed = mine_indices@.map_values(|v: usize| v as int);
        proof {
            assert forall|j: int| 0 <= j < length implies layout[j] == mine_indices@.contains(
                j as usize,
            ) by {
                if layout[j] {
                    let m = choose|m: int| 0 <= m < k && mine_indices[m] == j;
                    assert(mine_indices@[m] == j as usize);
                }
            }
            assert forall|j: int| #[trigger] cells_where(layout@).contains(j) implies placed.to_set().contains(j) by {
                let m = choose|m: int| 0 <= m < k && mine_indices[m] == j;
                assert(placed[m] == j);
            }
            assert forall|j: int| #[trigger] placed.to_set().contains(j) implies cells_where(layout@).contains(j) by {
                let m = choose|m: int| 0 <= m < placed.len() && placed[m] == j;
                assert(mine_indices[m] == j);
            }
            assert(cells_where(layout@) =~= placed.to_set());
            assert(placed.no_duplicates());
            placed.unique_seq_to_set();
        }

        let mut tiles: Vec<Tile> = Vec::new();
        let mut index: usize = 0;
        while index < length
            invariant
                length == width * height,
                layout.len() == length,
                tiles.len() == index,
                index <= length,
                forall|j: int|
                    0 <= j < index ==> (#[trigger] tiles[j]).value_spec() == cell_value(
                        layout@,
                        width as int,
                        height as int,
                        j,
                    ) && tiles[j].status_spec() == TileStatus::Blank,
            decreases length - index,
        {
            if layout[index] {
                tiles.push(Tile::new(TileValue::Mine));
            } else {
                let n = num_mine_neighbors(&layout, width, height, index);
                tiles.push(Tile::new(TileValue::Neighbored(n)));
            }
            index = index + 1;
        }
        let b = Board {
            tiles,
            turn: 0,
            width,
            height,
            mines: mine_indices.len(),
            active_mines: mine_indices.len(),
        };
        proof {
            assert(b.mine_layout() =~= layout@);
            assert(cells_where(b.flag_layout()) =~= Set::<int>::empty());
        }
        b
    }

    /// A board with `mines` mines placed uniformly at random, all tiles blank.
    pub fn new(width: usize, height: usize, mines: usize) -> (b: Board)
        requires
            width * height <= usize::MAX,
            mines <= width * height,
        ensures
            b.wf(),
            b.spec_width() == width,
            b.spec_height() == height,
            b.spec_mines() == mines,
            b.spec_turn() == 0,
            b.spec_active_mines() == mines,
            forall|i: int|
                0 <= i < width * height ==> (#[trigger] b.spec_tiles()[i]).status_spec()
                    == TileStatus::Blank,
    {
        let length = width * height;
        if mines == length {
            // Every cell is a mine: there is nothing to draw.
            let mut all: Vec<usize> = Vec::new();
            let mut i: usize = 0;
            while i < length
                invariant
                    i <= length,
                    all.len() == i,
                    forall|k: int| 0 <= k < i ==> all[k] == k,
                decreases length - i,
            {
                all.push(i);
                i = i + 1;
            }
            Board::with_mines(width, height, &all)
        } else {
            let mine_indices = sample_indices(length, mines);
            Board::with_mines(width, height, &mine_indices)
        }
    }

    /// The row-major index of (x, y), or `None` when (x, y) is off the grid.
    fn get_coord(&self, x: usize, y: usize) -> (r: Option<usize>)
        requires
            self.wf(),
        ensures
            r == if x < self.spec_width() && y < self.spec_height() {
                Some((x + y * self.spec_width()) as usize)
            } else {
                None::<usize>
            },
            r matches Some(i) ==> i < self.spec_tiles().len() && i == x + y * self.spec_width(),
    {
        if x >= self.width || y >= self.height {
            None
        } else {
            proof {
                lemma_index_in_grid(self.width as int, self.height as int, x as int, y as int);
            }
            Some(x + y * self.width)
        }
    }

    /// The tile at (x, y), or `None` when (x, y) is off the grid.
    pub fn tile(&self, x: usize, y: usize) -> (r: Option<Tile>)
        requires
            self.wf(),
        ensures
            r == if x < self.spec_width() && y < self.spec_height() {
                Some(self.tile_at(x as int, y as int))
            } else {
                None::<Tile>
            },
    {
        match self.get_coord(x, y) {
            Some(coord) => Some(self.tiles[coord]),
            None => None,
        }
    }

    /// Flags the tile at (x, y). Fails with `None`, changing nothing, when
    /// (x, y) is off the grid or the tile is already flagged. A flag counts
    /// against `active_mines` whether or not the tile is a mine.
    pub fn flag(&mut self, x: usize, y: usize) -> (r: Option<()>)
        requires
            old(self).wf(),
        ensures
            final(self).wf(),
            Board::flag_post(*old(self), *final(self), x, y, r),
    {
        let coord = match self.get_coord(x, y) {
            Some(coord) => coord,
            None => return None,
        };
        let mut tile = self.tiles[coord];
        if tile.status() == TileStatus::Flagged {
            None
        } else {
            let ghost before = *self;
            proof {
                lemma_cells_where_insert(self.flag_layout(), coord as int);
                lemma_cells_where_bounded(self.flag_layout().update(coord as int, true));
            }
            tile.set_status(TileStatus::Flagged);
            self.tiles.set(coord, tile);
            self.turn = self.turn + 1;
            if self.active_mines > 0 {
                self.active_mines = self.active_mines - 1;
            }
            proof {
                assert(self.flag_layout() =~= before.flag_layout().update(coord as int, true));
                assert(self.mine_layout() =~= before.mine_layout());
            }
            Some(())
        }
    }

    /// Opens the tile at (x, y), making its value visible. Fails with `None`,
    /// changing nothing, when (x, y) is off the grid or the tile is flagged.
    /// The counters do not change.
    pub fn open(&mut self, x: usize, y: usize) -> (r: Option<()>)
        requires
            old(self).wf(),
        ensures
            final(self).wf(),
            final(self).spec_width() == old(self).spec_width(),
            final(self).spec_height() == old(self).spec_height(),
            final(self).spec_mines() == old(self).spec_mines(),
            final(self).spec_turn() == old(self).spec_turn(),
            final(self).spec_active_mines() == old(self).spec_active_mines(),
            final(self).spec_tiles().len() == old(self).spec_tiles().len(),
            if x < old(self).spec_width() && y < old(self).spec_height() && old(self).tile_at(
                x as int,
                y as int,
            ).status_spec() != TileStatus::Flagged {
                &&& r == Some(())
                &&& final(self).tile_at(x as int, y as int).status_spec() == TileStatus::Open
                &&& final(self).tile_at(x as int, y as int).value_spec() == old(self).tile_at(
                    x as int,
                    y as int,
                ).value_spec()
                &&& forall|i: int|
                    0 <= i < old(self).spec_tiles().len() && i != x + y * old(self).spec_width()
                        ==> #[trigger] final(self).spec_tiles()[i] == old(self).spec_tiles()[i]
            } else {
                r == None::<()> && *final(self) == *old(self)
            },
    {
        let coord = match self.get_coord(x, y) {
            Some(coord) => coord,
            None => return None,
        };
        let mut tile = self.tiles[coord];
        if tile.status() == TileStatus::Flagged {
            None
        } else {
            let ghost before = *self;
            tile.set_status(TileStatus::Open);
            self.tiles.set(coord, tile);
            proof {
                assert(self.flag_layout() =~= before.flag_layout());
                assert(self.mine_layout() =~= before.mine_layout());
            }
            Some(())
        }
    }

    pub fn width(&self) -> (r: usize)
        ensures
            r == self.spec_width(),
    {
        self.width
    }

    pub fn height(&self) -> (r: usize)
        ensures
            r == self.spec_height(),
    {
        self.height
    }

    /// The number of successful flags so far.
    pub fn turn(&self) -> (r: usize)
        ensures
            r == self.spec_turn(),
    {
        self.turn
    }

    /// The number of mines on the board.
    pub fn mines(&self) -> (r: usize)
        ensures
            r == self.spec_mines(),
    {
        self.mines
    }

    /// The mines not yet matched by a flag.
    pub fn active_mines(&self) -> (r: usize)
        ensures
            r == self.spec_active_mines(),
    {
        self.active_mines
    }
}

} // verus!
