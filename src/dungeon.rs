use vstd::prelude::*;
use rand::rngs::StdRng;
use crate::carve::{
    carve_room_spec, carve_tunnel_spec, create_h_tunnel, create_room, create_v_tunnel,
};
use crate::grid::{Grid, all_uniform, all_walls};
use crate::random::{random_bool, random_in_range};
use crate::rect::{Rect, lemma_intersects_symmetric};
use crate::tile::{Tile, empty_tile};

verus! {

/// The sizes that the generator draws rooms from, and how many rooms it tries.
pub struct RoomConfig {
    pub room_min_size: i32,
    pub room_max_size: i32,
    pub max_rooms: i32,
}

/// One try at placing a room: its origin and size, and which way the tunnel
/// to it turns (along a row first, or along a column first).
#[derive(Clone, Copy, Debug, PartialEq, Eq, Structural)]
pub struct Attempt {
    pub x: i32,
    pub y: i32,
    pub w: i32,
    pub h: i32,
    pub horizontal_first: bool,
}

/// A finished dungeon: the grid, the rooms in the order they were placed, and
/// the spawn point (the center of the first room).
pub struct Dungeon {
    pub grid: Grid,
    pub rooms: Vec<Rect>,
    pub spawn: (i32, i32),
}

/// Room sizes are ordered and at least one, every room fits inside the grid
/// with a border, and at least one room is tried.
pub open spec fn valid_config(width: int, height: int, config: RoomConfig) -> bool {
    &&& 1 <= config.room_min_size <= config.room_max_size
    &&& config.room_max_size < width
    &&& config.room_max_size < height
    &&& 1 <= config.max_rooms
}

/// The room that an attempt proposes.
pub open spec fn attempt_room(a: Attempt) -> Rect {
    Rect::spec_new(a.x as int, a.y as int, a.w as int, a.h as int)
}

/// The attempt's rectangle, border included, lies inside the grid.
pub open spec fn attempt_fits(width: int, height: int, a: Attempt) -> bool {
    &&& 1 <= a.w
    &&& 1 <= a.h
    &&& 0 <= a.x
    &&& a.x + a.w < width
    &&& 0 <= a.y
    &&& a.y + a.h < height
}

/// The attempt is one that the generator can draw under `config`.
pub open spec fn attempt_in_config(width: int, height: int, config: RoomConfig, a: Attempt) -> bool {
    &&& config.room_min_size <= a.w <= config.room_max_size
    &&& config.room_min_size <= a.h <= config.room_max_size
    &&& 0 <= a.x < width - a.w
    &&& 0 <= a.y < height - a.h
}

/// The rectangle, border included, lies inside the grid.
pub open spec fn rect_inside(width: int, height: int, r: Rect) -> bool {
    0 <= r.x1 < r.x2 < width && 0 <= r.y1 < r.y2 < height
}

pub open spec fn all_inside(width: int, height: int, rooms: Seq<Rect>) -> bool {
    forall|i: int| 0 <= i < rooms.len() ==> rect_inside(width, height, #[trigger] rooms[i])
}

/// Some room of `rooms` intersects `r`.
pub open spec fn intersects_any(rooms: Seq<Rect>, r: Rect) -> bool {
    exists|i: int| 0 <= i < rooms.len() && r.spec_intersects(#[trigger] rooms[i])
}

/// No two rooms of `rooms` intersect.
pub open spec fn pairwise_disjoint(rooms: Seq<Rect>) -> bool {
    forall|i: int, j: int|
        0 <= i < rooms.len() && 0 <= j < rooms.len() && i != j ==> !(#[trigger] rooms[i]).spec_intersects(
            #[trigger] rooms[j],
        )
}

/// One attempt applied to a grid and the rooms placed so far: a room that
/// intersects a placed one is dropped; otherwise its interior is opened, a
/// tunnel joins the center of the last placed room to its center (unless it
/// is the first), and it is appended.
pub open spec fn step(cells: Seq<Seq<Tile>>, rooms: Seq<Rect>, a: Attempt) -> (Seq<Seq<Tile>>, Seq<Rect>) {
    let room = attempt_room(a);
    if intersects_any(rooms, room) {
        (cells, rooms)
    } else if rooms.len() == 0 {
        (carve_room_spec(cells, room), rooms.push(room))
    } else {
        (
            carve_tunnel_spec(
                carve_room_spec(cells, room),
                rooms.last().spec_center(),
                room.spec_center(),
                a.horizontal_first,
            ),
            rooms.push(room),
        )
    }
}

/// The grid and rooms that a run of attempts produces, starting from a grid
/// of walls.
pub open spec fn build(width: int, height: int, attempts: Seq<Attempt>) -> (Seq<Seq<Tile>>, Seq<Rect>)
    decreases attempts.len(),
{
    if attempts.len() == 0 {
        (all_walls(width, height), Seq::empty())
    } else {
        let prev = build(width, height, attempts.drop_last());
        step(prev.0, prev.1, attempts.last())
    }
}

/// The center of a rectangle whose sides are at least two apart lies
/// strictly inside it; the center of one inside a grid lies in the grid.
proof fn lemma_center_inside(r: Rect)
    requires
        0 <= r.x1 < r.x2,
        0 <= r.y1 < r.y2,
    ensures
        r.x1 <= r.spec_center().0 <= r.x2,
        r.y1 <= r.spec_center().1 <= r.y2,
        r.x2 - r.x1 >= 2 ==> r.x1 < r.spec_center().0 < r.x2,
        r.y2 - r.y1 >= 2 ==> r.y1 < r.spec_center().1 < r.y2,
{
}

/// Tries one room: places it and carves it (and the tunnel to it) unless it
/// intersects a room placed before.
pub fn place_room(grid: &mut Grid, rooms: &mut Vec<Rect>, attempt: Attempt) -> (placed: bool)
    requires
        old(grid).wf(),
        attempt_fits(old(grid).width as int, old(grid).height as int, attempt),
        all_inside(old(grid).width as int, old(grid).height as int, old(rooms)@),
    ensures
        final(grid).wf(),
        final(grid).width == old(grid).width,
        final(grid).height == old(grid).height,
        placed == !intersects_any(old(rooms)@, attempt_room(attempt)),
        (final(grid)@, final(rooms)@) == step(old(grid)@, old(rooms)@, attempt),
{
    let room = Rect::new(attempt.x, attempt.y, attempt.w, attempt.h);
    let mut failed = false;
    let mut i: usize = 0;
    while i < rooms.len()
        invariant
            0 <= i <= rooms.len(),
            room == attempt_room(attempt),
            failed == exists|k: int| 0 <= k < i && room.spec_intersects(#[trigger] rooms@[k]),
        decreases rooms.len() - i,
    {
        if room.intersects_with(&rooms[i]) {
            failed = true;
        }
        i = i + 1;
    }
    if failed {
        return false;
    }
    let ghost m0 = grid@;
    create_room(room, grid);
    let (new_x, new_y) = room.center();
    proof {
        lemma_center_inside(room);
    }
    if rooms.len() > 0 {
        let last = rooms[rooms.len() - 1];
        let (prev_x, prev_y) = last.center();
        proof {
            lemma_center_inside(last);
        }
        if attempt.horizontal_first {
            create_h_tunnel(prev_x, new_x, prev_y, grid);
            create_v_tunnel(prev_y, new_y, new_x, grid);
        } else {
            create_v_tunnel(prev_y, new_y, prev_x, grid);
            create_h_tunnel(prev_x, new_x, new_y, grid);
        }
    }
    rooms.push(room);
    true
}

/// A step keeps every tile a wall or open, keeps open tiles open, keeps the
/// placed rooms inside the grid and apart, and only appends to them.
proof fn lemma_step_preserves(width: int, height: int, cells: Seq<Seq<Tile>>, rooms: Seq<Rect>, a: Attempt)
    requires
        width <= i32::MAX,
        height <= i32::MAX,
        cells.len() == width,
        forall|x: int| 0 <= x < width ==> (#[trigger] cells[x]).len() == height,
        all_uniform(cells),
        all_inside(width, height, rooms),
        pairwise_disjoint(rooms),
        attempt_fits(width, height, a),
    ensures
        ({
            let (c2, r2) = step(cells, rooms, a);
            &&& c2.len() == width
            &&& forall|x: int| 0 <= x < width ==> (#[trigger] c2[x]).len() == height
            &&& all_uniform(c2)
            &&& all_inside(width, height, r2)
            &&& pairwise_disjoint(r2)
            &&& forall|x: int, y: int|
                0 <= x < width && 0 <= y < height && cells[x][y] == empty_tile() ==> #[trigger] c2[x][y]
                    == empty_tile()
            &&& r2.len() >= rooms.len()
            &&& r2.len() <= rooms.len() + 1
            &&& forall|i: int| 0 <= i < rooms.len() ==> #[trigger] r2[i] == rooms[i]
            &&& rooms.len() == 0 ==> r2 == seq![attempt_room(a)]
        }),
{
    let room = attempt_room(a);
    let (c2, r2) = step(cells, rooms, a);
    if !intersects_any(rooms, room) {
        assert(rect_inside(width, height, room));
        assert(r2.last() == room);
        assert forall|i: int, j: int|
            0 <= i < r2.len() && 0 <= j < r2.len() && i != j implies !(#[trigger] r2[i]).spec_intersects(
                #[trigger] r2[j],
            ) by {
            if i == rooms.len() {
                assert(!room.spec_intersects(rooms[j]));
            } else if j == rooms.len() {
                assert(!room.spec_intersects(rooms[i]));
                lemma_intersects_symmetric(room, rooms[i]);
            }
        }
        if rooms.len() == 0 {
            assert(r2 =~= seq![room]);
        }
    }
}

/// Runs every attempt in order on a grid of walls.
pub fn generate_from_attempts(width: i32, height: i32, attempts: &Vec<Attempt>) -> (d: Dungeon)
    requires
        0 <= width,
        0 <= height,
        1 <= attempts.len(),
        forall|i: int| 0 <= i < attempts.len() ==> attempt_fits(width as int, height as int, #[trigger] attempts@[i]),
    ensures
        d.grid.wf(),
        d.grid.width == width,
        d.grid.height == height,
        (d.grid@, d.rooms@) == build(width as int, height as int, attempts@),
        1 <= d.rooms@.len() <= attempts.len(),
        all_inside(width as int, height as int, d.rooms@),
        all_uniform(d.grid@),
        pairwise_disjoint(d.rooms@),
        d.rooms@[0] == attempt_room(attempts@[0]),
        d.spawn == d.rooms@[0].spec_center(),
        d.grid.in_bounds(d.spawn.0 as int, d.spawn.1 as int),
        (attempts@[0].w >= 2 && attempts@[0].h >= 2) || d.rooms@.len() >= 2 ==> d.grid@[d.spawn.0 as int][d.spawn.1 as int]
            == empty_tile(),
{
    let mut grid = Grid::new_blocked(width, height);
    let mut rooms: Vec<Rect> = Vec::new();
    let mut i: usize = 0;
    proof {
        assert(attempts@.take(0) =~= Seq::<Attempt>::empty());
    }
    while i < attempts.len()
        invariant
            0 <= i <= attempts.len(),
            1 <= attempts.len(),
            forall|k: int| 0 <= k < attempts.len() ==> attempt_fits(width as int, height as int, #[trigger] attempts@[k]),
            grid.wf(),
            grid.width == width,
            grid.height == height,
            (grid@, rooms@) == build(width as int, height as int, attempts@.take(i as int)),
            rooms@.len() <= i,
            i >= 1 ==> rooms@.len() >= 1 && rooms@[0] == attempt_room(attempts@[0]),
            all_inside(width as int, height as int, rooms@),
            all_uniform(grid@),
            pairwise_disjoint(rooms@),
            i >= 1 && ((attempts@[0].w >= 2 && attempts@[0].h >= 2) || rooms@.len() >= 2) ==> grid@[rooms@[0].spec_center().0 as int][rooms@[0].spec_center().1 as int]
                == empty_tile(),
        decreases attempts.len() - i,
    {
        let ghost cells0 = grid@;
        let ghost rooms0 = rooms@;
        proof {
            lemma_step_preserves(width as int, height as int, cells0, rooms0, attempts@[i as int]);
            assert(attempts@.take(i as int + 1).drop_last() =~= attempts@.take(i as int));
            assert(attempts@.take(i as int + 1).last() == attempts@[i as int]);
            if i == 0 {
                let r = attempt_room(attempts@[0]);
                lemma_center_inside(r);
            } else {
                lemma_center_inside(rooms0[0]);
            }
        }
        place_room(&mut grid, &mut rooms, attempts[i]);
        i = i + 1;
    }
    proof {
        assert(attempts@.take(attempts.len() as int) =~= attempts@);
        lemma_center_inside(rooms@[0]);
    }
    let spawn = rooms[0].center();
    Dungeon { grid, rooms, spawn }
}

/// Generates a dungeon on a `width` x `height` grid, drawing every attempt
/// from `rng`: width and height in `room_min_size..=room_max_size`, origin so
/// that the room and its border stay inside the grid, and the tunnel's turn.
pub fn generate(width: i32, height: i32, config: &RoomConfig, rng: &mut StdRng) -> (d: Dungeon)
    requires
        valid_config(width as int, height as int, *config),
    ensures
        exists|attempts: Seq<Attempt>|
            {
                &&& attempts.len() == config.max_rooms
                &&& forall|i: int|
                    0 <= i < attempts.len() ==> attempt_in_config(
                        width as int,
                        height as int,
                        *config,
                        #[trigger] attempts[i],
                    )
                &&& (d.grid@, d.rooms@) == build(width as int, height as int, attempts)
            },
        d.grid.wf(),
        d.grid.width == width,
        d.grid.height == height,
        1 <= d.rooms@.len() <= config.max_rooms,
        all_inside(width as int, height as int, d.rooms@),
        all_uniform(d.grid@),
        pairwise_disjoint(d.rooms@),
        d.spawn == d.rooms@[0].spec_center(),
        d.grid.in_bounds(d.spawn.0 as int, d.spawn.1 as int),
        config.room_min_size >= 2 || d.rooms@.len() >= 2 ==> d.grid@[d.spawn.0 as int][d.spawn.1 as int]
            == empty_tile(),
{
    let mut attempts: Vec<Attempt> = Vec::new();
    let mut n: i32 = 0;
    while n < config.max_rooms
        invariant
            valid_config(width as int, height as int, *config),
            0 <= n <= config.max_rooms,
            attempts@.len() == n,
            forall|i: int|
                0 <= i < attempts@.len() ==> attempt_in_config(
                    width as int,
                    height as int,
                    *config,
                    #[trigger] attempts@[i],
                ),
        decreases config.max_rooms - n,
    {
        let w = random_in_range(rng, config.room_min_size, config.room_max_size + 1);
        let h = random_in_range(rng, config.room_min_size, config.room_max_size + 1);
        let x = random_in_range(rng, 0, width - w);
        let y = random_in_range(rng, 0, height - h);
        let horizontal_first = random_bool(rng);
        attempts.push(Attempt { x, y, w, h, horizontal_first });
        n = n + 1;
    }
    assert forall|i: int| 0 <= i < attempts@.len() implies attempt_fits(
        width as int,
        height as int,
        #[trigger] attempts@[i],
    ) by {
        assert(attempt_in_config(width as int, height as int, *config, attempts@[i]));
    }
    generate_from_attempts(width, height, &attempts)
}

/// A room of the largest size at the rightmost origin that leaves a border
/// (`x == width - w - 1`) is one the generator can draw, lies inside the grid,
/// and is placed when no room stands yet.
pub proof fn lemma_rightmost_room_accepted(
    width: i32,
    height: i32,
    config: RoomConfig,
    a: Attempt,
    cells: Seq<Seq<Tile>>,
)
    requires
        valid_config(width as int, height as int, config),
        a.w == config.room_max_size,
        a.x == width - a.w - 1,
        config.room_min_size <= a.h <= config.room_max_size,
        0 <= a.y < height - a.h,
    ensures
        attempt_in_config(width as int, height as int, config, a),
        rect_inside(width as int, height as int, attempt_room(a)),
        step(cells, Seq::empty(), a).1 == seq![attempt_room(a)],
{
    assert(Seq::<Rect>::empty().push(attempt_room(a)) =~= seq![attempt_room(a)]);
}

/// Two runs of the same attempts on grids of the same size agree on every
/// tile, on the rooms and on the spawn point.
pub proof fn lemma_runs_agree(width: int, height: int, attempts: Seq<Attempt>, d1: Dungeon, d2: Dungeon)
    requires
        (d1.grid@, d1.rooms@) == build(width, height, attempts),
        (d2.grid@, d2.rooms@) == build(width, height, attempts),
        d1.spawn == d1.rooms@[0].spec_center(),
        d2.spawn == d2.rooms@[0].spec_center(),
    ensures
        d1.grid@ == d2.grid@,
        d1.rooms@ == d2.rooms@,
        d1.spawn == d2.spawn,
{
}

} // verus!
