use vstd::prelude::*;

verus! {

/// Where a tile stands in play.
#[derive(Clone, Copy, Debug, PartialEq, Eq, Structural)]
pub enum TileStatus {
    Blank,
    Flagged,
    Open,
}

/// What a tile holds: a mine, or the number of mines among its neighbours.
#[derive(Clone, Copy, Debug, PartialEq, Eq, Structural)]
pub enum TileValue {
    Mine,
    Neighbored(usize),
}

/// One cell of the board. Its value is fixed when the tile is made; it can be
/// read only once the tile is open.
#[derive(Clone, Copy)]
pub struct Tile {
    status: TileStatus,
    value: TileValue,
}

impl Tile {
    /// The tile's current status.
    pub closed spec fn status_spec(self) -> TileStatus {
        self.status
    }

    /// The tile's hidden value, whatever its status.
    pub closed spec fn value_spec(self) -> TileValue {
        self.value
    }

    /// A blank tile holding `value`.
    pub fn new(value: TileValue) -> (t: Tile)
        ensures
            t.status_spec() == TileStatus::Blank,
            t.value_spec() == value,
    {
        Tile { status: TileStatus::Blank, value }
    }

    pub fn status(&self) -> (s: TileStatus)
        ensures
            s == self.status_spec(),
    {
        self.status
    }

    /// The tile's value, visible only when the tile is open.
    pub fn value(&self) -> (v: Option<TileValue>)
        ensures
            v == (if self.status_spec() == TileStatus::Open {
                Some(self.value_spec())
            } else {
                None
            }),
    {
        match self.status {
            TileStatus::Open => Some(self.value),
            _ => None,
        }
    }

    /// Moves the tile to `status`; its value stays.
    pub(crate) fn set_status(&mut self, status: TileStatus)
        ensures
            final(self).status_spec() == status,
            final(self).value_spec() == old(self).value_spec(),
    {
        self.status = status;
    }
}

} // verus!
