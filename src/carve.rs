use vstd::prelude::*;
use crate::grid::{Grid, carve_region};
use crate::rect::Rect;
use crate::tile::Tile;

verus! {

pub open spec fn min_of(a: int, b: int) -> int {
    if a <= b {
        a
    } else {
        b
    }
}

pub open spec fn max_of(a: int, b: int) -> int {
    if a <= b {
        b
    } else {
        a
    }
}

/// `m` with the interior of `room` opened: every cell strictly inside its
/// bounding rectangle, leaving the border as walls.
pub open spec fn carve_room_spec(m: Seq<Seq<Tile>>, room: Rect) -> Seq<Seq<Tile>> {
    carve_region(m, room.x1 + 1, room.x2 - 1, room.y1 + 1, room.y2 - 1)
}

/// `m` with row `y` opened from column `x1` to column `x2`, both included.
pub open spec fn carve_h_spec(m: Seq<Seq<Tile>>, x1: int, x2: int, y: int) -> Seq<Seq<Tile>> {
    carve_region(m, min_of(x1, x2), max_of(x1, x2), y, y)
}

/// `m` with column `x` opened from row `y1` to row `y2`, both included.
pub open spec fn carve_v_spec(m: Seq<Seq<Tile>>, y1: int, y2: int, x: int) -> Seq<Seq<Tile>> {
    carve_region(m, x, x, min_of(y1, y2), max_of(y1, y2))
}

/// `m` with an L-shaped tunnel from `from` to `to`: either along the row of
/// `from` and then the column of `to`, or along the column of `from` and then
/// the row of `to`.
pub open spec fn carve_tunnel_spec(
    m: Seq<Seq<Tile>>,
    from: (i32, i32),
    to: (i32, i32),
    horizontal_first: bool,
) -> Seq<Seq<Tile>> {
    if horizontal_first {
        carve_v_spec(carve_h_spec(m, from.0 as int, to.0 as int, from.1 as int), from.1 as int, to.1 as int, to.0 as int)
    } else {
        carve_h_spec(carve_v_spec(m, from.1 as int, to.1 as int, from.0 as int), from.0 as int, to.0 as int, to.1 as int)
    }
}

/// Opens every cell in `x_lo..=x_hi` x `y_lo..=y_hi`.
fn fill_region(grid: &mut Grid, x_lo: i32, x_hi: i32, y_lo: i32, y_hi: i32)
    requires
        old(grid).wf(),
        0 <= x_lo <= x_hi + 1,
        x_hi < old(grid).width,
        0 <= y_lo <= y_hi + 1,
        y_hi < old(grid).height,
    ensures
        final(grid).wf(),
        final(grid).width == old(grid).width,
        final(grid).height == old(grid).height,
        final(grid)@ == carve_region(old(grid)@, x_lo as int, x_hi as int, y_lo as int, y_hi as int),
{
    let ghost m0 = grid@;
    let mut x: i32 = x_lo;
    while x <= x_hi
        invariant
            grid.wf(),
            grid.width == old(grid).width,
            grid.height == old(grid).height,
            m0 == old(grid)@,
            0 <= x_lo <= x <= x_hi + 1,
            x_hi < grid.width,
            0 <= y_lo <= y_hi + 1,
            y_hi < grid.height,
            forall|cx: int, cy: int|
                0 <= cx < grid.width && 0 <= cy < grid.height ==> #[trigger] grid@[cx][cy] == if x_lo
                    <= cx < x && y_lo <= cy <= y_hi {
                    Tile { blocked: false, blocked_sight: false }
                } else {
                    m0[cx][cy]
                },
        decreases x_hi + 1 - x,
    {
        let mut y: i32 = y_lo;
        while y <= y_hi
            invariant
                grid.wf(),
                grid.width == old(grid).width,
                grid.height == old(grid).height,
                0 <= x_lo <= x <= x_hi,
                x_hi < grid.width,
                m0 == old(grid)@,
                0 <= y_lo <= y <= y_hi + 1,
                y_hi < grid.height,
                forall|cx: int, cy: int|
                    0 <= cx < grid.width && 0 <= cy < grid.height ==> #[trigger] grid@[cx][cy] == if (
                    x_lo <= cx < x && y_lo <= cy <= y_hi) || (cx == x && y_lo <= cy < y) {
                        Tile { blocked: false, blocked_sight: false }
                    } else {
                        m0[cx][cy]
                    },
            decreases y_hi + 1 - y,
        {
            grid.carve(x, y);
            y = y + 1;
        }
        x = x + 1;
    }
    assert(grid@ =~~= carve_region(m0, x_lo as int, x_hi as int, y_lo as int, y_hi as int));
}

/// Opens the interior of `room`.
pub fn create_room(room: Rect, grid: &mut Grid)
    requires
        old(grid).wf(),
        0 <= room.x1 < room.x2 <= old(grid).width,
        0 <= room.y1 < room.y2 <= old(grid).height,
    ensures
        final(grid).wf(),
        final(grid).width == old(grid).width,
        final(grid).height == old(grid).height,
        final(grid)@ == carve_room_spec(old(grid)@, room),
{
    fill_region(grid, room.x1 + 1, room.x2 - 1, room.y1 + 1, room.y2 - 1);
}

/// Opens row `y` from column `x1` to column `x2`, both included, in either
/// direction.
pub fn create_h_tunnel(x1: i32, x2: i32, y: i32, grid: &mut Grid)
    requires
        old(grid).wf(),
        old(grid).in_bounds(x1 as int, y as int),
        old(grid).in_bounds(x2 as int, y as int),
    ensures
        final(grid).wf(),
        final(grid).width == old(grid).width,
        final(grid).height == old(grid).height,
        final(grid)@ == carve_h_spec(old(grid)@, x1 as int, x2 as int, y as int),
{
    if x1 <= x2 {
        fill_region(grid, x1, x2, y, y);
    } else {
        fill_region(grid, x2, x1, y, y);
    }
}

/// Opens column `x` from row `y1` to row `y2`, both included, in either
/// direction.
pub fn create_v_tunnel(y1: i32, y2: i32, x: i32, grid: &mut Grid)
    requires
        old(grid).wf(),
        old(grid).in_bounds(x as int, y1 as int),
        old(grid).in_bounds(x as int, y2 as int),
    ensures
        final(grid).wf(),
        final(grid).width == old(grid).width,
        final(grid).height == old(grid).height,
        final(grid)@ == carve_v_spec(old(grid)@, y1 as int, y2 as int, x as int),
{
    if y1 <= y2 {
        fill_region(grid, x, x, y1, y2);
    } else {
        fill_region(grid, x, x, y2, y1);
    }
}

/// Carving a straight tunnel does not depend on the direction in which it is
/// given: from `a` to `b` opens the same cells as from `b` to `a`.
pub proof fn lemma_tunnel_direction_independent(m: Seq<Seq<Tile>>, a: int, b: int, c: int)
    ensures
        carve_h_spec(m, a, b, c) == carve_h_spec(m, b, a, c),
        carve_v_spec(m, a, b, c) == carve_v_spec(m, b, a, c),
{
    assert(carve_h_spec(m, a, b, c) =~~= carve_h_spec(m, b, a, c));
    assert(carve_v_spec(m, a, b, c) =~~= carve_v_spec(m, b, a, c));
}

/// An L-shaped tunnel from `a` to `b` that goes along a row first opens the
/// same cells as the one from `b` to `a` that goes along a column first: both
/// take the row of `a` and the column of `b`.
pub proof fn lemma_l_tunnel_reversed(m: Seq<Seq<Tile>>, a: (i32, i32), b: (i32, i32))
    ensures
        carve_tunnel_spec(m, a, b, true) == carve_tunnel_spec(m, b, a, false),
        carve_tunnel_spec(m, a, b, false) == carve_tunnel_spec(m, b, a, true),
{
    assert(carve_tunnel_spec(m, a, b, true) =~~= carve_tunnel_spec(m, b, a, false));
    assert(carve_tunnel_spec(m, a, b, false) =~~= carve_tunnel_spec(m, b, a, true));
}

} // verus!
