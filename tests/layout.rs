use tri_terrain::grid::{GridLayout, TileIndex};
use tri_terrain::lattice::LatticePoint;

fn world(p: LatticePoint, edge_width: f32) -> (f32, f32) {
    let small_r = (edge_width * edge_width - (edge_width / 2.0) * (edge_width / 2.0)).sqrt();
    (p.across as f32 * edge_width / 2.0, p.down as f32 * small_r)
}

fn close(a: f32, b: f32) -> bool {
    (a - b).abs() < 1e-2
}

#[test]
fn two_by_two_grid_coordinates() {
    let g = GridLayout::generate(2, 2);
    let expected = [
        (0usize, 0usize, 0.0f32, 0.0f32),
        (0, 1, 24.0, 13.856),
        (1, 0, 0.0, 27.713),
        (1, 1, 24.0, 41.569),
    ];
    for (row, col, x, y) in expected {
        let s = g.slot(row, col);
        assert_eq!(s.index, TileIndex { row, col });
        let (wx, wy) = world(s.point, 16.0);
        assert!(close(wx, x), "x of ({row}, {col}): {wx}");
        assert!(close(wy, y), "y of ({row}, {col}): {wy}");
    }
    assert_eq!(g.slot(1, 1).point, LatticePoint { across: 3, down: 3 });
}

#[test]
fn lattice_units_of_tiles() {
    assert_eq!(LatticePoint::of_tile(0, 0), LatticePoint { across: 0, down: 0 });
    assert_eq!(LatticePoint::of_tile(0, 1), LatticePoint { across: 3, down: 1 });
    assert_eq!(LatticePoint::of_tile(1, 0), LatticePoint { across: 0, down: 2 });
    assert_eq!(LatticePoint::of_tile(4, 7), LatticePoint { across: 21, down: 9 });
    assert_eq!(LatticePoint::of_tile(4, 8), LatticePoint { across: 24, down: 8 });
}

#[test]
fn grid_shape_matches_sizes() {
    let g = GridLayout::generate(5, 3);
    assert_eq!(g.x_size, 5);
    assert_eq!(g.y_size, 3);
    assert_eq!(g.rows.len(), 3);
    for row in &g.rows {
        assert_eq!(row.len(), 5);
    }
    let total: usize = g.rows.iter().map(|r| r.len()).sum();
    assert_eq!(total, 15);
}

#[test]
fn empty_grids() {
    let g = GridLayout::generate(0, 4);
    assert_eq!(g.rows.len(), 4);
    assert!(g.rows.iter().all(|r| r.is_empty()));
    assert!(g.paint_order().is_empty());
    let g = GridLayout::generate(6, 0);
    assert!(g.rows.is_empty());
    assert!(g.paint_order().is_empty());
}

#[test]
fn odd_column_is_one_triangle_height_lower() {
    let g = GridLayout::generate(6, 4);
    for row in 0..4 {
        for col in (0..6).step_by(2) {
            let even = g.slot(row, col).point;
            let odd = g.slot(row, col + 1).point;
            assert_eq!(odd.down, even.down + 1);
            assert_eq!(odd.across, even.across + 3);
        }
    }
}

#[test]
fn generation_is_deterministic() {
    let a = GridLayout::generate(7, 5);
    let b = GridLayout::generate(7, 5);
    assert_eq!(a.rows, b.rows);
    assert_eq!(a.paint_order(), b.paint_order());
}

#[test]
fn paint_order_of_odd_width() {
    let g = GridLayout::generate(5, 2);
    let cols: Vec<(usize, usize)> = g.paint_order().iter().map(|t| (t.row, t.col)).collect();
    assert_eq!(
        cols,
        vec![
            (0, 0), (0, 2), (0, 4), (0, 1), (0, 3),
            (1, 0), (1, 2), (1, 4), (1, 1), (1, 3),
        ]
    );
}

#[test]
fn paint_order_evens_first_and_each_tile_once() {
    let g = GridLayout::generate(6, 3);
    let order = g.paint_order();
    assert_eq!(order.len(), 18);
    for i in 0..order.len() {
        for j in 0..order.len() {
            if i < j {
                assert!(order[i].row <= order[j].row);
                assert_ne!(order[i], order[j]);
            }
            if order[i].row == order[j].row && order[i].col % 2 == 0 && order[j].col % 2 == 1 {
                assert!(i < j);
            }
        }
    }
    for row in 0..3 {
        for col in 0..6 {
            assert!(order.contains(&TileIndex { row, col }));
        }
    }
}

#[test]
fn single_column_paint_order() {
    let g = GridLayout::generate(1, 3);
    let order = g.paint_order();
    assert_eq!(
        order,
        vec![
            TileIndex { row: 0, col: 0 },
            TileIndex { row: 1, col: 0 },
            TileIndex { row: 2, col: 0 },
        ]
    );
}
