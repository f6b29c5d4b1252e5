use dungeon_gen::grid::Grid;
use dungeon_gen::object::{
    background_of, color_dark_ground, color_dark_wall, handle_keys, Color, Game, KeyInput, Object,
};
use dungeon_gen::tile::Tile;

fn open_game() -> Game {
    let mut map = Grid::new_blocked(10, 10);
    for x in 1..9 {
        for y in 1..9 {
            map.carve(x, y);
        }
    }
    Game { map }
}

fn actor(x: i32, y: i32) -> Object {
    Object::new(x, y, '@', Color { r: 255, g: 255, b: 0 })
}

#[test]
fn blocked_destination_keeps_actor() {
    let mut map = Grid::new_blocked(10, 10);
    map.carve(4, 5);
    let game = Game { map };
    let mut a = actor(4, 5);
    a.move_by(1, 0, &game);
    assert_eq!((a.x, a.y), (4, 5));
}

#[test]
fn open_destination_moves_actor() {
    let mut map = Grid::new_blocked(10, 10);
    map.carve(4, 5);
    map.carve(5, 5);
    let game = Game { map };
    let mut a = actor(4, 5);
    a.move_by(1, 0, &game);
    assert_eq!((a.x, a.y), (5, 5));
    assert_eq!(a.char, '@');
    assert_eq!(a.color, Color { r: 255, g: 255, b: 0 });
}

#[test]
fn diagonal_move_needs_only_open_destination() {
    let mut map = Grid::new_blocked(10, 10);
    map.carve(4, 4);
    map.carve(5, 5);
    let game = Game { map };
    let mut a = actor(4, 4);
    a.move_by(1, 1, &game);
    assert_eq!((a.x, a.y), (5, 5));
}

#[test]
fn leaving_the_grid_is_a_blocked_move() {
    let mut map = Grid::new_blocked(3, 3);
    map.carve(0, 0);
    let game = Game { map };
    let mut a = actor(0, 0);
    a.move_by(-1, 0, &game);
    assert_eq!((a.x, a.y), (0, 0));
    a.move_by(0, 3, &game);
    assert_eq!((a.x, a.y), (0, 0));
    let mut far = actor(i32::MAX, i32::MIN);
    far.move_by(i32::MAX, i32::MIN, &game);
    assert_eq!((far.x, far.y), (i32::MAX, i32::MIN));
}

#[test]
fn keys_move_and_escape_quits() {
    let game = open_game();
    let mut p = actor(4, 4);
    assert!(!handle_keys(KeyInput::Up, &mut p, &game));
    assert_eq!((p.x, p.y), (4, 3));
    assert!(!handle_keys(KeyInput::Down, &mut p, &game));
    assert_eq!((p.x, p.y), (4, 4));
    assert!(!handle_keys(KeyInput::Right, &mut p, &game));
    assert_eq!((p.x, p.y), (5, 4));
    assert!(!handle_keys(KeyInput::Left, &mut p, &game));
    assert_eq!((p.x, p.y), (4, 4));
    assert!(!handle_keys(KeyInput::Other, &mut p, &game));
    assert_eq!((p.x, p.y), (4, 4));
    assert!(handle_keys(KeyInput::Escape, &mut p, &game));
    assert_eq!((p.x, p.y), (4, 4));
}

#[test]
fn key_into_wall_does_not_move() {
    let game = open_game();
    let mut p = actor(1, 1);
    assert!(!handle_keys(KeyInput::Left, &mut p, &game));
    assert_eq!((p.x, p.y), (1, 1));
}

#[test]
fn background_colors() {
    assert_eq!(background_of(Tile::wall()), Color { r: 0, g: 0, b: 100 });
    assert_eq!(background_of(Tile::empty()), Color { r: 50, g: 50, b: 150 });
    assert_eq!(color_dark_wall(), Color { r: 0, g: 0, b: 100 });
    assert_eq!(color_dark_ground(), Color { r: 50, g: 50, b: 150 });
}
