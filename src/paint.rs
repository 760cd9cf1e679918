//! The order in which tiles are painted.
//!
//! An odd column's tile sits half a row lower than its even neighbours and nests
//! into the gap between them, so it must be drawn after them. Rows are painted from
//! the first to the last; within a row, every even column comes first, left to right,
//! then every odd column, left to right. Painting in this order gives the correct
//! overlap without a depth buffer.
use vstd::prelude::*;

use crate::grid::{GridLayout, TileIndex};

verus! {

/// The number of even columns in a row of `x_size` tiles.
pub open spec fn even_count(x_size: nat) -> nat {
    (x_size + 1) / 2
}

/// The paint order of row `row` in a grid `x_size` wide: its even columns, then its
/// odd columns, each in increasing order.
pub open spec fn row_paint_order(x_size: nat, row: nat) -> Seq<TileIndex> {
    Seq::new(even_count(x_size), |i: int| TileIndex { row: row as usize, col: (2 * i) as usize })
        + Seq::new(x_size / 2, |i: int| TileIndex { row: row as usize, col: (2 * i + 1) as usize })
}

/// The paint order of the first `rows` rows of a grid `x_size` wide.
pub open spec fn paint_order_of(x_size: nat, rows: nat) -> Seq<TileIndex>
    decreases rows,
{
    if rows == 0 {
        Seq::empty()
    } else {
        paint_order_of(x_size, (rows - 1) as nat) + row_paint_order(x_size, (rows - 1) as nat)
    }
}

impl GridLayout {
    /// The tiles of the grid in the order in which they must be painted.
    pub fn paint_order(&self) -> (order: Vec<TileIndex>)
        ensures
            order@ == paint_order_of(self.x_size as nat, self.y_size as nat),
    {
        let x_size = self.x_size;
        let evens: usize = x_size / 2 + x_size % 2;
        let odds: usize = x_size / 2;
        let mut order: Vec<TileIndex> = Vec::new();
        for row in 0..self.y_size
            invariant
                x_size == self.x_size,
                evens == even_count(x_size as nat),
                odds == x_size / 2,
                order@ == paint_order_of(x_size as nat, row as nat),
        {
            let ghost before = order@;
            for i in 0..evens
                invariant
                    evens == even_count(x_size as nat),
                    order@ =~= before + Seq::new(
                        i as nat,
                        |k: int| TileIndex { row: row as usize, col: (2 * k) as usize },
                    ),
            {
                order.push(TileIndex { row, col: 2 * i });
            }
            let ghost with_evens = order@;
            for i in 0..odds
                invariant
                    odds == x_size / 2,
                    evens == even_count(x_size as nat),
                    order@ =~= with_evens + Seq::new(
                        i as nat,
                        |k: int| TileIndex { row: row as usize, col: (2 * k + 1) as usize },
                    ),
            {
                order.push(TileIndex { row, col: 2 * i + 1 });
            }
            assert(order@ =~= before + row_paint_order(x_size as nat, row as nat));
        }
        order
    }
}

/// A row's paint order lists every column of the row once.
proof fn lemma_row_paint_order(x_size: nat, row: nat)
    requires
        x_size <= usize::MAX,
        row <= usize::MAX,
    ensures
        row_paint_order(x_size, row).len() == x_size,
        forall|j: int|
            0 <= j < x_size ==> {
                let t = #[trigger] row_paint_order(x_size, row)[j];
                &&& t.row == row
                &&& t.col < x_size
                &&& (j < even_count(x_size) <==> t.col % 2 == 0)
            },
        forall|c: int|
            0 <= c < x_size ==> #[trigger] row_paint_order(x_size, row).contains(
                TileIndex { row: row as usize, col: c as usize },
            ),
        row_paint_order(x_size, row).no_duplicates(),
{
    let s = row_paint_order(x_size, row);
    let e = even_count(x_size);
    assert forall|c: int| 0 <= c < x_size implies #[trigger] s.contains(
        TileIndex { row: row as usize, col: c as usize },
    ) by {
        if c % 2 == 0 {
            assert(s[c / 2] == TileIndex { row: row as usize, col: c as usize });
        } else {
            assert(s[e + c / 2] == TileIndex { row: row as usize, col: c as usize });
        }
    }
}

/// Painting `y_size` rows of `x_size` tiles paints `x_size * y_size` tiles, every
/// one of them inside the grid, and each tile of the grid exactly once.
pub proof fn lemma_paint_order_covers_grid(x_size: nat, y_size: nat)
    requires
        x_size <= usize::MAX,
        y_size <= usize::MAX,
    ensures
        paint_order_of(x_size, y_size).len() == x_size * y_size,
        forall|k: int|
            0 <= k < paint_order_of(x_size, y_size).len() ==> {
                let t = #[trigger] paint_order_of(x_size, y_size)[k];
                t.row < y_size && t.col < x_size
            },
        forall|r: int, c: int|
            0 <= r < y_size && 0 <= c < x_size ==> #[trigger] paint_order_of(
                x_size,
                y_size,
            ).contains(TileIndex { row: r as usize, col: c as usize }),
        paint_order_of(x_size, y_size).no_duplicates(),
    decreases y_size,
{
    if y_size > 0 {
        let h = (y_size - 1) as nat;
        lemma_paint_order_covers_grid(x_size, h);
        lemma_row_paint_order(x_size, h);
        let p = paint_order_of(x_size, h);
        let q = row_paint_order(x_size, h);
        let s = paint_order_of(x_size, y_size);
        assert(s == p + q);
        assert(x_size * y_size == x_size * h + x_size) by (nonlinear_arith)
            requires
                h == y_size - 1,
        ;
        assert forall|k: int| 0 <= k < s.len() implies {
            let t = #[trigger] s[k];
            t.row < y_size && t.col < x_size
        } by {
            if k >= p.len() {
                assert(s[k] == q[k - p.len()]);
            }
        }
        assert forall|r: int, c: int| 0 <= r < y_size && 0 <= c < x_size implies #[trigger] s.contains(
            TileIndex { row: r as usize, col: c as usize },
        ) by {
            let t = TileIndex { row: r as usize, col: c as usize };
            if r < h {
                assert(p.contains(t));
                let k = choose|k: int| 0 <= k < p.len() && p[k] == t;
                assert(s[k] == t);
            } else {
                assert(q.contains(t));
                let k = choose|k: int| 0 <= k < q.len() && q[k] == t;
                assert(s[p.len() + k] == t);
            }
        }
        assert forall|i: int, j: int| 0 <= i < s.len() && 0 <= j < s.len() && i != j implies s[i]
            != s[j] by {
            if i < p.len() && j < p.len() {
                assert(s[i] == p[i] && s[j] == p[j]);
            } else if i >= p.len() && j >= p.len() {
                assert(s[i] == q[i - p.len()] && s[j] == q[j - p.len()]);
            } else if i < p.len() {
                assert(s[i] == p[i] && s[j] == q[j - p.len()]);
            } else {
                assert(s[j] == p[j] && s[i] == q[i - p.len()]);
            }
        }
    }
}

/// Rows are painted in increasing order: a tile painted earlier never belongs to a
/// later row.
pub proof fn lemma_rows_in_order(x_size: nat, y_size: nat, i: int, j: int)
    requires
        x_size <= usize::MAX,
        y_size <= usize::MAX,
        0 <= i < j < paint_order_of(x_size, y_size).len(),
    ensures
        paint_order_of(x_size, y_size)[i].row <= paint_order_of(x_size, y_size)[j].row,
    decreases y_size,
{
    let h = (y_size - 1) as nat;
    lemma_paint_order_covers_grid(x_size, h);
    lemma_row_paint_order(x_size, h);
    let p = paint_order_of(x_size, h);
    let q = row_paint_order(x_size, h);
    let s = paint_order_of(x_size, y_size);
    assert(s == p + q);
    if j < p.len() {
        lemma_rows_in_order(x_size, h, i, j);
        assert(s[i] == p[i] && s[j] == p[j]);
    } else if i < p.len() {
        assert(s[i] == p[i] && s[j] == q[j - p.len()]);
    } else {
        assert(s[i] == q[i - p.len()] && s[j] == q[j - p.len()]);
    }
}

/// Within a row, every even column is painted before every odd column.
pub proof fn lemma_evens_before_odds(x_size: nat, y_size: nat, i: int, j: int)
    requires
        x_size <= usize::MAX,
        y_size <= usize::MAX,
        0 <= i < paint_order_of(x_size, y_size).len(),
        0 <= j < paint_order_of(x_size, y_size).len(),
        paint_order_of(x_size, y_size)[i].row == paint_order_of(x_size, y_size)[j].row,
        paint_order_of(x_size, y_size)[i].col % 2 == 0,
        paint_order_of(x_size, y_size)[j].col % 2 == 1,
    ensures
        i < j,
    decreases y_size,
{
    let h = (y_size - 1) as nat;
    lemma_paint_order_covers_grid(x_size, h);
    lemma_row_paint_order(x_size, h);
    let p = paint_order_of(x_size, h);
    let q = row_paint_order(x_size, h);
    let s = paint_order_of(x_size, y_size);
    assert(s == p + q);
    if i < p.len() && j < p.len() {
        assert(s[i] == p[i] && s[j] == p[j]);
        lemma_evens_before_odds(x_size, h, i, j);
    } else if i >= p.len() && j >= p.len() {
        assert(s[i] == q[i - p.len()] && s[j] == q[j - p.len()]);
    } else if i >= p.len() {
        assert(s[i] == q[i - p.len()] && s[j] == p[j]);
    }
}

} // verus!
