//! Exact positions on the triangular lattice.
//!
//! With an edge width `e`, columns are `1.5 * e` apart and rows are two triangle
//! heights (`2 * h`, `h = sqrt(e * e - (e / 2) * (e / 2))`) apart, odd columns sitting
//! one triangle height lower than even ones. Measured in half edges across and in
//! triangle heights down, every tile therefore lies on integer coordinates.
use vstd::prelude::*;

verus! {

/// A tile's position: `across` half edge widths to the right of the origin and
/// `down` triangle heights below it.
#[derive(Clone, Copy, Debug, PartialEq, Eq, Structural)]
pub struct LatticePoint {
    pub across: u128,
    pub down: u128,
}

/// Half edge widths from the origin to column `col`.
pub open spec fn across_of(col: int) -> int {
    3 * col
}

/// Triangle heights from the origin to the tile at `row`, `col`: two per row, plus
/// one for an odd column.
pub open spec fn down_of(row: int, col: int) -> int {
    2 * row + col % 2
}

impl LatticePoint {
    /// The lattice point of the tile at `row`, `col`.
    pub open spec fn at(row: int, col: int) -> LatticePoint {
        LatticePoint { across: across_of(col) as u128, down: down_of(row, col) as u128 }
    }

    /// Computes the lattice point of the tile at `row`, `col`.
    pub fn of_tile(row: usize, col: usize) -> (p: LatticePoint)
        ensures
            p.across == across_of(col as int),
            p.down == down_of(row as int, col as int),
            p == LatticePoint::at(row as int, col as int),
    {
        let across = 3 * (col as u128);
        let down = 2 * (row as u128) + (col % 2) as u128;
        LatticePoint { across, down }
    }
}

/// Within a row, the tile of an odd column sits exactly one triangle height below
/// its even left neighbour and three half edges to its right.
pub proof fn lemma_odd_column_shift(row: int, col: int)
    requires
        0 <= row,
        0 <= col,
        col % 2 == 0,
    ensures
        down_of(row, col + 1) == down_of(row, col) + 1,
        across_of(col + 1) == across_of(col) + 3,
{
}

/// Positions grow along both axes: a later column lies further right, and every
/// tile of a later row lies strictly lower than every tile of an earlier one.
pub proof fn lemma_positions_increase(r1: int, c1: int, r2: int, c2: int)
    requires
        0 <= r1,
        0 <= c1,
        0 <= r2,
        0 <= c2,
    ensures
        c1 < c2 ==> across_of(c1) < across_of(c2),
        r1 < r2 ==> down_of(r1, c1) < down_of(r2, c2),
{
}

} // verus!
