use vstd::prelude::*;
use rand::rngs::StdRng;
use crate::dungeon::{Attempt, RoomConfig, attempt_in_config, build, generate};
use crate::grid::{Grid, all_uniform};
use crate::tile::{Tile, empty_tile};

verus! {

pub const MAP_WIDTH: i32 = 80;
pub const MAP_HEIGHT: i32 = 45;
pub const ROOM_MAX_SIZE: i32 = 10;
pub const ROOM_MIN_SIZE: i32 = 6;
pub const MAX_ROOMS: i32 = 30;

/// A color as red, green and blue components.
#[derive(Clone, Copy, Debug, PartialEq, Eq, Structural)]
pub struct Color {
    pub r: u8,
    pub g: u8,
    pub b: u8,
}

pub open spec fn spec_dark_wall() -> Color {
    Color { r: 0, g: 0, b: 100 }
}

pub open spec fn spec_dark_ground() -> Color {
    Color { r: 50, g: 50, b: 150 }
}

/// The background of a tile that blocks sight.
pub fn color_dark_wall() -> (c: Color)
    ensures
        c == spec_dark_wall(),
{
    Color { r: 0, g: 0, b: 100 }
}

/// The background of a tile that does not block sight.
pub fn color_dark_ground() -> (c: Color)
    ensures
        c == spec_dark_ground(),
{
    Color { r: 50, g: 50, b: 150 }
}

/// The background that a tile is drawn with.
pub fn background_of(tile: Tile) -> (c: Color)
    ensures
        c == if tile.blocked_sight {
            spec_dark_wall()
        } else {
            spec_dark_ground()
        },
{
    if tile.blocked_sight {
        color_dark_wall()
    } else {
        color_dark_ground()
    }
}

/// The state that actors move in.
pub struct Game {
    pub map: Grid,
}

/// A positioned entity with a glyph and a color.
#[derive(Debug)]
pub struct Object {
    pub x: i32,
    pub y: i32,
    pub char: char,
    pub color: Color,
}

/// Where an actor at `(x, y)` ends up after trying to step by `(dx, dy)`: the
/// destination if it lies in the grid and is not blocked, else where it was.
pub open spec fn spec_step(x: int, y: int, dx: int, dy: int, map: Grid) -> (int, int) {
    if map.in_bounds(x + dx, y + dy) && !map@[x + dx][y + dy].blocked {
        (x + dx, y + dy)
    } else {
        (x, y)
    }
}

/// The keys that the game reacts to.
#[derive(Clone, Copy, Debug, PartialEq, Eq, Structural)]
pub enum KeyInput {
    Escape,
    Up,
    Down,
    Right,
    Left,
    Other,
}

/// The step that a key asks for.
pub open spec fn key_delta(key: KeyInput) -> (int, int) {
    match key {
        KeyInput::Up => (0, -1),
        KeyInput::Down => (0, 1),
        KeyInput::Right => (1, 0),
        KeyInput::Left => (-1, 0),
        _ => (0, 0),
    }
}

impl Object {
    pub fn new(x: i32, y: i32, char: char, color: Color) -> (o: Self)
        ensures
            o.x == x,
            o.y == y,
            o.char == char,
            o.color == color,
    {
        Object { x, y, char, color }
    }

    /// Steps by `(dx, dy)` where the destination lies in the grid and is not
    /// blocked; otherwise stays in place.
    pub fn move_by(&mut self, dx: i32, dy: i32, game: &Game)
        requires
            game.map.wf(),
        ensures
            (final(self).x as int, final(self).y as int) == spec_step(
                old(self).x as int,
                old(self).y as int,
                dx as int,
                dy as int,
                game.map,
            ),
            final(self).char == old(self).char,
            final(self).color == old(self).color,
    {
        let nx: i64 = self.x as i64 + dx as i64;
        let ny: i64 = self.y as i64 + dy as i64;
        match game.map.get(nx, ny) {
            Some(tile) => {
                if !tile.blocked {
                    self.x = nx as i32;
                    self.y = ny as i32;
                }
            },
            None => {},
        }
    }
}

/// Acts on one key: Escape asks to quit, the arrows move the player.
pub fn handle_keys(key: KeyInput, player: &mut Object, game: &Game) -> (exit: bool)
    requires
        game.map.wf(),
    ensures
        exit == (key == KeyInput::Escape),
        (final(player).x as int, final(player).y as int) == spec_step(
            old(player).x as int,
            old(player).y as int,
            key_delta(key).0,
            key_delta(key).1,
            game.map,
        ),
        final(player).char == old(player).char,
        final(player).color == old(player).color,
{
    match key {
        KeyInput::Escape => {
            return true;
        },
        KeyInput::Up => player.move_by(0, -1, game),
        KeyInput::Down => player.move_by(0, 1, game),
        KeyInput::Right => player.move_by(1, 0, game),
        KeyInput::Left => player.move_by(-1, 0, game),
        KeyInput::Other => {},
    }
    false
}

/// The room sizes and count of the standard dungeon.
pub fn default_config() -> (c: RoomConfig)
    ensures
        c.room_min_size == ROOM_MIN_SIZE,
        c.room_max_size == ROOM_MAX_SIZE,
        c.max_rooms == MAX_ROOMS,
{
    RoomConfig { room_min_size: ROOM_MIN_SIZE, room_max_size: ROOM_MAX_SIZE, max_rooms: MAX_ROOMS }
}

/// Generates the standard dungeon and puts the player at its spawn point.
pub fn make_map(player: &mut Object, rng: &mut StdRng) -> (map: Grid)
    ensures
        exists|attempts: Seq<Attempt>|
            {
                &&& attempts.len() == MAX_ROOMS
                &&& forall|i: int|
                    0 <= i < attempts.len() ==> attempt_in_config(
                        MAP_WIDTH as int,
                        MAP_HEIGHT as int,
                        RoomConfig {
                            room_min_size: ROOM_MIN_SIZE,
                            room_max_size: ROOM_MAX_SIZE,
                            max_rooms: MAX_ROOMS,
                        },
                        #[trigger] attempts[i],
                    )
                &&& map@ == (#[trigger] build(MAP_WIDTH as int, MAP_HEIGHT as int, attempts)).0
                &&& 1 <= build(MAP_WIDTH as int, MAP_HEIGHT as int, attempts).1.len()
                &&& (final(player).x, final(player).y) == build(
                    MAP_WIDTH as int,
                    MAP_HEIGHT as int,
                    attempts,
                ).1[0].spec_center()
            },
        map.wf(),
        map.width == MAP_WIDTH,
        map.height == MAP_HEIGHT,
        all_uniform(map@),
        map.in_bounds(final(player).x as int, final(player).y as int),
        map@[final(player).x as int][final(player).y as int] == empty_tile(),
        final(player).char == old(player).char,
        final(player).color == old(player).color,
{
    let config = default_config();
    let d = generate(MAP_WIDTH, MAP_HEIGHT, &config, rng);
    player.x = d.spawn.0;
    player.y = d.spawn.1;
    d.grid
}

} // verus!
