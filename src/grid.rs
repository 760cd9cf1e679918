//! The rectangular, row-major layout of a terrain grid.
use vstd::prelude::*;

use crate::lattice::LatticePoint;

verus! {

/// The grid position of a tile: its row and its column.
#[derive(Clone, Copy, Debug, PartialEq, Eq, Structural)]
pub struct TileIndex {
    pub row: usize,
    pub col: usize,
}

/// One tile of the layout: where it sits in the grid and on the lattice.
#[derive(Clone, Copy, Debug, PartialEq, Eq, Structural)]
pub struct TileSlot {
    pub index: TileIndex,
    pub point: LatticePoint,
}

/// The slot that belongs at `row`, `col`.
pub open spec fn slot_at(row: int, col: int) -> TileSlot {
    TileSlot {
        index: TileIndex { row: row as usize, col: col as usize },
        point: LatticePoint::at(row, col),
    }
}

/// The layout of a grid `x_size` tiles wide and `y_size` tiles tall, row by row.
pub open spec fn layout_of(x_size: nat, y_size: nat) -> Seq<Seq<TileSlot>> {
    Seq::new(y_size, |row: int| Seq::new(x_size, |col: int| slot_at(row, col)))
}

/// A grid of `x_size` columns and `y_size` rows, stored row-major.
pub struct GridLayout {
    pub x_size: usize,
    pub y_size: usize,
    pub rows: Vec<Vec<TileSlot>>,
}

impl View for GridLayout {
    type V = Seq<Seq<TileSlot>>;

    open spec fn view(&self) -> Seq<Seq<TileSlot>> {
        self.rows@.map_values(|r: Vec<TileSlot>| r@)
    }
}

impl GridLayout {
    /// The rows hold exactly the slots of an `x_size` by `y_size` grid.
    pub open spec fn well_formed(&self) -> bool {
        &&& self.rows@.len() == self.y_size
        &&& self@ == layout_of(self.x_size as nat, self.y_size as nat)
    }

    /// Lays out a grid of `x_size` columns and `y_size` rows. Either size may be zero,
    /// which gives an empty grid.
    pub fn generate(x_size: usize, y_size: usize) -> (g: GridLayout)
        ensures
            g.x_size == x_size,
            g.y_size == y_size,
            g.well_formed(),
    {
        let mut rows: Vec<Vec<TileSlot>> = Vec::new();
        for row in 0..y_size
            invariant
                rows@.len() == row,
                rows@.map_values(|r: Vec<TileSlot>| r@) =~= layout_of(x_size as nat, row as nat),
        {
            let mut slots: Vec<TileSlot> = Vec::new();
            for col in 0..x_size
                invariant
                    slots@ =~= Seq::new(col as nat, |c: int| slot_at(row as int, c)),
            {
                let point = LatticePoint::of_tile(row, col);
                slots.push(TileSlot { index: TileIndex { row, col }, point });
            }
            let ghost done = rows@;
            rows.push(slots);
            proof {
                assert(rows@.map_values(|r: Vec<TileSlot>| r@) =~= done.map_values(
                    |r: Vec<TileSlot>| r@,
                ).push(slots@));
            }
        }
        GridLayout { x_size, y_size, rows }
    }

    /// The slot at `row`, `col`.
    pub fn slot(&self, row: usize, col: usize) -> (s: TileSlot)
        requires
            self.well_formed(),
            row < self.y_size,
            col < self.x_size,
        ensures
            s == slot_at(row as int, col as int),
    {
        assert(self@[row as int] == self.rows@[row as int]@);
        self.rows[row][col]
    }
}

/// A layout's shape is its sizes: `y_size` rows of `x_size` tiles each, so
/// `x_size * y_size` tiles in all.
pub proof fn lemma_layout_shape(g: GridLayout)
    requires
        g.well_formed(),
    ensures
        g@.len() == g.y_size,
        forall|r: int| 0 <= r < g.y_size ==> #[trigger] g@[r].len() == g.x_size,
        g.rows@.len() == g.y_size,
        forall|r: int| 0 <= r < g.y_size ==> #[trigger] g.rows@[r]@.len() == g.x_size,
{
    assert forall|r: int| 0 <= r < g.y_size implies #[trigger] g.rows@[r]@.len() == g.x_size by {
        assert(g@[r] == g.rows@[r]@);
    }
}

/// Generation is deterministic: two well-formed layouts of the same sizes hold the
/// same slots.
pub proof fn lemma_layout_deterministic(a: GridLayout, b: GridLayout)
    requires
        a.well_formed(),
        b.well_formed(),
        a.x_size == b.x_size,
        a.y_size == b.y_size,
    ensures
        a@ == b@,
{
}

} // verus!
