use dungeon_gen::carve::{create_h_tunnel, create_room, create_v_tunnel};
use dungeon_gen::grid::Grid;
use dungeon_gen::rect::Rect;
use dungeon_gen::tile::Tile;

fn open_cells(grid: &Grid) -> Vec<(i32, i32)> {
    let mut cells = Vec::new();
    for x in 0..grid.width {
        for y in 0..grid.height {
            if !grid.tile_at(x, y).blocked {
                cells.push((x, y));
            }
        }
    }
    cells
}

#[test]
fn tile_constructors() {
    assert_eq!(Tile::empty(), Tile { blocked: false, blocked_sight: false });
    assert_eq!(Tile::wall(), Tile { blocked: true, blocked_sight: true });
}

#[test]
fn rect_new_sets_corners() {
    let r = Rect::new(3, 4, 5, 6);
    assert_eq!(r, Rect { x1: 3, y1: 4, x2: 8, y2: 10 });
}

#[test]
fn center_of_seven_square() {
    assert_eq!(Rect::new(0, 0, 7, 7).center(), (3, 3));
}

#[test]
fn center_matches_origin_plus_half_size() {
    for (x, y, w, h) in [(2, 5, 9, 6), (10, 0, 1, 2), (0, 7, 10, 10), (31, 17, 7, 3)] {
        assert_eq!(Rect::new(x, y, w, h).center(), (x + w / 2, y + h / 2));
    }
}

#[test]
fn center_rounds_toward_zero() {
    let r = Rect { x1: -3, y1: -5, x2: 0, y2: 0 };
    assert_eq!(r.center(), (-1, -2));
    let big = Rect { x1: i32::MAX - 1, y1: i32::MIN, x2: i32::MAX, y2: i32::MIN + 1 };
    assert_eq!(big.center(), (i32::MAX - 1, i32::MIN + 1));
}

#[test]
fn touching_rects_intersect() {
    let a = Rect::new(0, 0, 5, 5);
    let b = Rect::new(5, 0, 5, 5);
    assert!(a.intersects_with(&b));
    assert!(b.intersects_with(&a));
}

#[test]
fn separated_rects_do_not_intersect() {
    let a = Rect::new(0, 0, 5, 5);
    let b = Rect::new(6, 0, 5, 5);
    let c = Rect::new(0, 6, 5, 5);
    assert!(!a.intersects_with(&b));
    assert!(!a.intersects_with(&c));
}

#[test]
fn intersects_is_symmetric() {
    let rects = [
        Rect::new(0, 0, 5, 5),
        Rect::new(5, 5, 2, 2),
        Rect::new(2, 2, 1, 1),
        Rect::new(10, 0, 3, 8),
        Rect::new(-4, -4, 3, 3),
    ];
    for a in rects.iter() {
        for b in rects.iter() {
            assert_eq!(a.intersects_with(b), b.intersects_with(a));
        }
    }
}

#[test]
fn new_grid_is_all_walls() {
    let grid = Grid::new_blocked(8, 5);
    assert_eq!(grid.width, 8);
    assert_eq!(grid.height, 5);
    assert_eq!(grid.tiles.len(), 8);
    for col in grid.tiles.iter() {
        assert_eq!(col.len(), 5);
        for t in col.iter() {
            assert_eq!(*t, Tile::wall());
        }
    }
}

#[test]
fn carve_opens_one_tile() {
    let mut grid = Grid::new_blocked(4, 4);
    grid.carve(2, 1);
    assert_eq!(open_cells(&grid), vec![(2, 1)]);
    assert_eq!(grid.tile_at(2, 1), Tile::empty());
}

#[test]
fn get_outside_is_none() {
    let grid = Grid::new_blocked(4, 3);
    assert_eq!(grid.get(-1, 0), None);
    assert_eq!(grid.get(4, 0), None);
    assert_eq!(grid.get(0, 3), None);
    assert_eq!(grid.get(3, 2), Some(Tile::wall()));
}

#[test]
fn room_interior_is_carved_and_border_kept() {
    let mut grid = Grid::new_blocked(10, 10);
    create_room(Rect::new(1, 2, 4, 3), &mut grid);
    assert_eq!(open_cells(&grid), vec![(2, 3), (2, 4), (3, 3), (3, 4), (4, 3), (4, 4)]);
}

#[test]
fn thin_room_opens_nothing() {
    let mut grid = Grid::new_blocked(5, 5);
    create_room(Rect::new(1, 1, 1, 3), &mut grid);
    assert!(open_cells(&grid).is_empty());
}

#[test]
fn h_tunnel_is_direction_independent() {
    let mut a = Grid::new_blocked(12, 12);
    let mut b = Grid::new_blocked(12, 12);
    create_h_tunnel(10, 2, 4, &mut a);
    create_h_tunnel(2, 10, 4, &mut b);
    assert_eq!(a.tiles, b.tiles);
    let expected: Vec<(i32, i32)> = (2..=10).map(|x| (x, 4)).collect();
    assert_eq!(open_cells(&a), expected);
}

#[test]
fn v_tunnel_is_direction_independent() {
    let mut a = Grid::new_blocked(12, 12);
    let mut b = Grid::new_blocked(12, 12);
    create_v_tunnel(10, 2, 7, &mut a);
    create_v_tunnel(2, 10, 7, &mut b);
    assert_eq!(a.tiles, b.tiles);
    let expected: Vec<(i32, i32)> = (2..=10).map(|y| (7, y)).collect();
    assert_eq!(open_cells(&a), expected);
}

#[test]
fn l_tunnel_reversed_with_other_turn() {
    // From (10,10) to (2,2) along the row first, against (2,2) to (10,10) along the column first.
    let mut a = Grid::new_blocked(12, 12);
    create_h_tunnel(10, 2, 10, &mut a);
    create_v_tunnel(10, 2, 2, &mut a);
    let mut b = Grid::new_blocked(12, 12);
    create_v_tunnel(2, 10, 2, &mut b);
    create_h_tunnel(2, 10, 10, &mut b);
    assert_eq!(a.tiles, b.tiles);
    assert_eq!(open_cells(&a).len(), 17);
}

#[test]
fn single_cell_tunnel() {
    let mut grid = Grid::new_blocked(5, 5);
    create_h_tunnel(3, 3, 3, &mut grid);
    assert_eq!(open_cells(&grid), vec![(3, 3)]);
}
