use geogrid::base::{GridNum, PointIndex, Vec3};
use geogrid::geom::{BoundingBox, BoxCollider, Cube};
use geogrid::grid::grid_map::get_hash_order;
use geogrid::grid::{Grid3D, GridError, GridMap};

fn cube64() -> GridMap<f64, i64> {
    GridMap::<f64, i64>::new(Vec3::zero(), Vec3::broadcast(64))
}

fn numbers(indices: Vec<PointIndex>) -> Vec<usize> {
    indices.into_iter().map(|i| i.index()).collect()
}

#[test]
fn gridmap_test() {
    let mut grid = GridMap::<f64, i64>::new(Vec3::zero(), Vec3::broadcast(64));

    let pos = Vec3::new(2, 4, 12);
    let value = 42.;
    let index = grid.add(value, pos).unwrap();

    assert_eq!(index, grid.index(pos).unwrap());
    assert!(grid.remove(index));
    assert!(grid.index(pos).is_none());
}

#[test]
fn hash_weights_the_axes_in_order() {
    let grid = cube64();
    // Equal extents: x first, then z, then y.
    assert_eq!(grid.hash(Vec3::new(2, 4, 12)).index(), 2 * 64 * 64 + 12 * 64 + 4);
    assert_eq!(grid.hash(Vec3::new(0, 0, 0)).index(), 0);
    assert_eq!(grid.hash(Vec3::new(64, 64, 64)).index(), 64 * 64 * 64 + 64 * 64 + 64);
}

#[test]
fn hash_shifts_negative_bounds() {
    let grid = GridMap::<u8, i32>::new(Vec3::new(-3, 0, -1), Vec3::new(7, 2, 4));
    // Extents 10, 2, 5: x first, then z, then y; shifts 3, 0, 1.
    assert_eq!(grid.hash(Vec3::new(-3, 0, -1)).index(), 0);
    assert_eq!(grid.hash(Vec3::new(1, 2, 3)).index(), 4 * 10 * 5 + 4 * 5 + 2);
}

#[test]
fn hash_order_puts_the_largest_extent_first() {
    assert_eq!(get_hash_order(3, 2, 1), (0, 1, 2));
    assert_eq!(get_hash_order(3, 1, 2), (0, 2, 1));
    assert_eq!(get_hash_order(1, 2, 3), (2, 1, 0));
    assert_eq!(get_hash_order(2, 1, 3), (2, 0, 1));
    assert_eq!(get_hash_order(2, 3, 1), (1, 0, 2));
    assert_eq!(get_hash_order(1, 3, 2), (1, 2, 0));
    assert_eq!(get_hash_order(5, 5, 5), (0, 2, 1));
    assert_eq!(get_hash_order(1, 5, 5), (2, 1, 0));
    assert_eq!(get_hash_order(3, 5, 3), (1, 2, 0));
}

#[test]
fn index_valid_follows_the_capacity_formula() {
    let grid = GridMap::<u8, i64>::new(Vec3::zero(), Vec3::new(10, 9, 1));
    // height + width² + depth·width·depth
    let max_index = 9 + 10 * 10 + 1 * 10 * 1;
    assert!(grid.index_valid(PointIndex::new(max_index)));
    assert!(!grid.index_valid(PointIndex::new(max_index + 1)));
    assert!(!grid.index_used(PointIndex::new(0)));
}

#[test]
fn add_then_index_then_item() {
    let mut grid = cube64();
    let pos = Vec3::new(2, 4, 12);
    let index = grid.add(42., pos).unwrap();
    assert_eq!(grid.index(pos), Some(index));
    let object = grid.item(index).unwrap();
    assert_eq!(*object.item(), 42.);
    let at = object.position();
    assert_eq!((at.x, at.y, at.z), (2, 4, 12));
    assert_eq!(grid.len(), 1);
    assert!(grid.index_used(index));
}

#[test]
fn second_add_is_refused_until_removed() {
    let mut grid = cube64();
    let pos = Vec3::new(1, 1, 1);
    let index = grid.add(1., pos).unwrap();
    match grid.add(2., pos) {
        Err(GridError::SpaceOccupied(p)) => assert_eq!((p.x, p.y, p.z), (1, 1, 1)),
        _ => panic!("the cell is taken"),
    }
    assert_eq!(*grid.item(index).unwrap().item(), 1.);
    assert_eq!(grid.len(), 1);
    assert!(grid.remove(index));
    assert_eq!(grid.add(2., pos).unwrap(), index);
    assert_eq!(*grid.item(index).unwrap().item(), 2.);
}

#[test]
fn add_outside_the_bounds_is_refused() {
    let mut grid = cube64();
    grid.add(1., Vec3::new(0, 0, 0)).unwrap();
    for pos in [Vec3::new(65, 0, 0), Vec3::new(0, -1, 0), Vec3::new(0, 0, 65), Vec3::new(-1, -1, -1)] {
        assert!(matches!(grid.add(9., pos), Err(GridError::OutOfBounds)));
    }
    assert_eq!(grid.len(), 1);
    assert!(grid.add(2., Vec3::new(64, 64, 64)).is_ok());
}

#[test]
fn remove_of_nothing_changes_nothing() {
    let mut grid = cube64();
    let index = grid.add(1., Vec3::new(3, 3, 3)).unwrap();
    assert!(!grid.remove(PointIndex::new(5)));
    assert!(!grid.remove(PointIndex::end()));
    assert_eq!(grid.len(), 1);
    assert!(grid.remove(index));
    assert!(!grid.remove(index));
    assert_eq!(grid.len(), 0);
}

#[test]
fn index_is_none_outside_and_on_empty_cells() {
    let mut grid = cube64();
    grid.add(1., Vec3::new(3, 3, 3)).unwrap();
    assert!(grid.index(Vec3::new(3, 3, 4)).is_none());
    assert!(grid.index(Vec3::new(100, 3, 3)).is_none());
    assert!(grid.index(Vec3::new(-1, 3, 3)).is_none());
}

#[test]
fn an_index_past_the_capacity_is_stored_but_not_found() {
    let mut grid = GridMap::<u8, i64>::new(Vec3::zero(), Vec3::new(10, 9, 1));
    let pos = Vec3::new(10, 9, 1);
    // x first, then y, then z: 10·10·9 + 9·9 + 1, past 119.
    let index = grid.add(7, pos).unwrap();
    assert_eq!(index.index(), 982);
    assert!(!grid.index_valid(index));
    assert!(grid.index(pos).is_none());
    assert!(grid.item(index).is_none());
    assert!(!grid.remove(index));
    assert_eq!(grid.len(), 1);
    assert!(matches!(grid.add(8, pos), Err(GridError::SpaceOccupied(_))));
}

#[test]
fn item_mut_writes_through() {
    let mut grid = cube64();
    let pos = Vec3::new(5, 6, 7);
    let index = grid.add(1., pos).unwrap();
    {
        let object = grid.item_mut(index).unwrap();
        assert_eq!(*object.item(), 1.);
    }
    assert!(grid.item_mut(PointIndex::new(0)).is_none());
    assert!(grid.item_mut(PointIndex::end()).is_none());
    assert_eq!(grid.len(), 1);
}

#[test]
fn items_holds_every_item_once() {
    let mut grid = cube64();
    assert!(grid.items().is_empty());
    grid.add(1., Vec3::new(0, 0, 0)).unwrap();
    grid.add(2., Vec3::new(1, 0, 0)).unwrap();
    grid.add(3., Vec3::new(0, 1, 0)).unwrap();
    let mut found: Vec<f64> = grid.items().iter().map(|o| *o.item()).collect();
    found.sort_by(|a, b| a.partial_cmp(b).unwrap());
    assert_eq!(found, vec![1., 2., 3.]);
    assert_eq!(grid.len(), 3);
}

#[test]
fn face_neighbors_are_symmetric() {
    let mut grid = cube64();
    let p = Vec3::new(4, 4, 4);
    let q = Vec3::new(4, 5, 4);
    let ip = grid.add(1., p).unwrap();
    let iq = grid.add(2., q).unwrap();
    assert_eq!(numbers(grid.neighbors(p, false)), vec![iq.index()]);
    assert_eq!(numbers(grid.neighbors(q, false)), vec![ip.index()]);
}

#[test]
fn face_neighbors_come_in_candidate_order() {
    let mut grid = cube64();
    let p = Vec3::new(1, 1, 1);
    let mut expected = Vec::new();
    for q in [
        Vec3::new(2, 1, 1),
        Vec3::new(1, 2, 1),
        Vec3::new(1, 1, 2),
        Vec3::new(0, 1, 1),
        Vec3::new(1, 0, 1),
        Vec3::new(1, 1, 0),
    ] {
        expected.push(grid.add(0., q).unwrap().index());
    }
    grid.add(0., Vec3::new(2, 2, 1)).unwrap();
    assert_eq!(numbers(grid.neighbors(p, false)), expected);
}

#[test]
fn face_neighbors_at_the_lower_corner() {
    let mut grid = cube64();
    let a = grid.add(0., Vec3::new(1, 0, 0)).unwrap();
    let b = grid.add(0., Vec3::new(0, 0, 1)).unwrap();
    assert_eq!(numbers(grid.neighbors(Vec3::zero(), false)), vec![a.index(), b.index()]);
    assert!(grid.neighbors(Vec3::new(64, 64, 64), false).is_empty());
}

#[test]
fn no_candidate_lies_below_zero() {
    let mut grid = GridMap::<u8, i64>::new(Vec3::broadcast(-2), Vec3::broadcast(2));
    let below = grid.add(1, Vec3::new(-1, 0, 0)).unwrap();
    let origin = grid.add(2, Vec3::new(0, 0, 0)).unwrap();
    // From the origin the cell at x = -1 is not looked at.
    assert!(grid.neighbors(Vec3::zero(), false).is_empty());
    assert!(grid.neighbors(Vec3::zero(), true).is_empty());
    // From x = -1 the origin is one step up.
    assert_eq!(numbers(grid.neighbors(Vec3::new(-1, 0, 0), false)), vec![origin.index()]);
    assert_eq!(numbers(grid.neighbors(Vec3::new(-1, 0, 0), true)), vec![origin.index()]);
    assert!(grid.index_used(below));
}

#[test]
fn diagonal_neighbors_cover_the_block() {
    let mut grid = cube64();
    let center = Vec3::new(5, 5, 5);
    grid.add(0., center).unwrap();
    let mut expected = Vec::new();
    for x in 4..7 {
        for y in 4..7 {
            for z in 4..7 {
                if (x, y, z) != (5, 5, 5) {
                    expected.push(grid.add(1., Vec3::new(x, y, z)).unwrap().index());
                }
            }
        }
    }
    grid.add(1., Vec3::new(7, 5, 5)).unwrap();
    assert_eq!(expected.len(), 26);
    assert_eq!(numbers(grid.neighbors(center, true)), expected);
}

#[test]
fn diagonal_neighbors_skip_empty_cells() {
    let mut grid = cube64();
    let a = grid.add(1., Vec3::new(0, 1, 1)).unwrap();
    let b = grid.add(1., Vec3::new(1, 1, 0)).unwrap();
    assert_eq!(numbers(grid.neighbors(Vec3::zero(), true)), vec![a.index(), b.index()]);
}

#[test]
fn grid_reports_its_bounds() {
    let bounds = BoundingBox::new(Vec3::new(-1i32, -2, -3), Vec3::new(4, 5, 6));
    let grid = GridMap::<u8, i32>::from_boundingbox(bounds);
    let min = grid.min();
    let max = grid.max();
    assert_eq!((min.x, min.y, min.z), (-1, -2, -3));
    assert_eq!((max.x, max.y, max.z), (4, 5, 6));
    assert!(grid.contains_point(Vec3::new(4, 5, 6)));
    assert!(!grid.contains_point(Vec3::new(5, 5, 6)));
    assert!(grid.contains(&BoundingBox::new(Vec3::zero(), Vec3::broadcast(1))));
    assert!(!grid.contains(&BoundingBox::new(Vec3::zero(), Vec3::broadcast(9))));
    assert!(grid.intersects(&BoundingBox::new(Vec3::broadcast(4), Vec3::broadcast(9))));
    assert!(!grid.intersects(&BoundingBox::new(Vec3::broadcast(7), Vec3::broadcast(9))));
    assert_eq!(grid.len(), 0);
}

#[test]
fn grid_scalars_convert_to_counts() {
    assert_eq!(5i64.to_usize(), Some(5));
    assert_eq!((-5i64).to_usize(), None);
    assert_eq!((-5i32).to_usize(), None);
    assert_eq!(127i8.to_usize(), Some(127));
    assert_eq!(<i8 as GridNum>::from_usize(127), Some(127));
    assert_eq!(<i8 as GridNum>::from_usize(128), None);
    assert_eq!(<i32 as GridNum>::from_usize(7), Some(7));
    assert_eq!(<i64 as GridNum>::from_usize(usize::MAX), None);
    assert_eq!(GridNum::abs(-5i64), 5);
    assert_eq!(GridNum::abs(5i32), 5);
    assert_eq!(GridNum::abs(-128i8 + 1), 127);
}

#[test]
fn positions_on_the_upper_border_can_share_a_cell() {
    let mut grid = cube64();
    // x first, then z, then y: (0, 64, 0) and (0, 0, 1) both hash to 64.
    let first = grid.add(1., Vec3::new(0, 64, 0)).unwrap();
    assert_eq!(first.index(), 64);
    assert_eq!(grid.hash(Vec3::new(0, 0, 1)).index(), 64);
    assert!(matches!(grid.add(2., Vec3::new(0, 0, 1)), Err(GridError::SpaceOccupied(_))));
    assert_eq!(grid.index(Vec3::new(0, 0, 1)), Some(first));
}

#[test]
fn positions_below_the_upper_border_have_cells_of_their_own() {
    let grid = GridMap::<u8, i32>::new(Vec3::new(-1, 0, 0), Vec3::new(3, 2, 3));
    let mut seen = Vec::new();
    for x in -1..3 {
        for y in 0..2 {
            for z in 0..3 {
                let index = grid.hash(Vec3::new(x, y, z)).index();
                assert!(!seen.contains(&index));
                seen.push(index);
            }
        }
    }
    assert_eq!(seen.len(), 24);
}

#[test]
fn every_cell_of_a_cube_at_the_origin_is_valid() {
    let grid = GridMap::<u8, i64>::new(Vec3::zero(), Vec3::broadcast(3));
    for x in 0..4 {
        for y in 0..4 {
            for z in 0..4 {
                assert!(grid.index_valid(grid.hash(Vec3::new(x, y, z))));
            }
        }
    }
    assert!(!grid.index_valid(PointIndex::new(3 + 9 + 27 + 1)));
}
