use vstd::prelude::*;
use crate::tile::{Tile, empty_tile, wall_tile};

verus! {

/// The dungeon grid: `tiles[x][y]` is the tile at column `x`, row `y`.
pub struct Grid {
    pub width: i32,
    pub height: i32,
    pub tiles: Vec<Vec<Tile>>,
}

/// Every tile of a `width` x `height` grid is a wall.
pub open spec fn all_walls(width: int, height: int) -> Seq<Seq<Tile>> {
    Seq::new(width as nat, |x: int| Seq::new(height as nat, |y: int| wall_tile()))
}

/// `m` with every cell in `x_lo..=x_hi` x `y_lo..=y_hi` opened.
pub open spec fn carve_region(m: Seq<Seq<Tile>>, x_lo: int, x_hi: int, y_lo: int, y_hi: int) -> Seq<Seq<Tile>> {
    Seq::new(
        m.len(),
        |x: int|
            Seq::new(
                m[x].len(),
                |y: int|
                    if x_lo <= x <= x_hi && y_lo <= y <= y_hi {
                        empty_tile()
                    } else {
                        m[x][y]
                    },
            ),
    )
}

/// Every cell of `m` is either a wall or open.
pub open spec fn all_uniform(m: Seq<Seq<Tile>>) -> bool {
    forall|x: int, y: int|
        0 <= x < m.len() && 0 <= y < m[x].len() ==> (#[trigger] m[x][y] == wall_tile() || m[x][y]
            == empty_tile())
}

impl View for Grid {
    type V = Seq<Seq<Tile>>;

    open spec fn view(&self) -> Seq<Seq<Tile>> {
        self.tiles@.map_values(|c: Vec<Tile>| c@)
    }
}

impl Grid {
    /// The grid has `width` columns of `height` tiles each.
    pub open spec fn wf(&self) -> bool {
        &&& 0 <= self.width
        &&& 0 <= self.height
        &&& self.tiles@.len() == self.width
        &&& forall|x: int| 0 <= x < self.width ==> (#[trigger] self.tiles@[x])@.len() == self.height
    }

    pub open spec fn in_bounds(&self, x: int, y: int) -> bool {
        0 <= x < self.width && 0 <= y < self.height
    }

    /// A grid of the given size in which every tile is a wall.
    pub fn new_blocked(width: i32, height: i32) -> (m: Grid)
        requires
            0 <= width,
            0 <= height,
        ensures
            m.wf(),
            m.width == width,
            m.height == height,
            m@ == all_walls(width as int, height as int),
    {
        let mut tiles: Vec<Vec<Tile>> = Vec::new();
        let mut i: i32 = 0;
        while i < width
            invariant
                0 <= i <= width,
                0 <= height,
                tiles@.len() == i,
                forall|x: int| 0 <= x < i ==> (#[trigger] tiles@[x])@ == Seq::new(height as nat, |y: int| wall_tile()),
            decreases width - i,
        {
            let mut col: Vec<Tile> = Vec::new();
            let mut j: i32 = 0;
            while j < height
                invariant
                    0 <= j <= height,
                    0 <= height,
                    col@.len() == j,
                    forall|y: int| 0 <= y < j ==> #[trigger] col@[y] == wall_tile(),
                decreases height - j,
            {
                col.push(Tile::wall());
                j = j + 1;
            }
            assert(col@ =~= Seq::new(height as nat, |y: int| wall_tile()));
            tiles.push(col);
            i = i + 1;
        }
        let m = Grid { width, height, tiles };
        assert(m@ =~~= all_walls(width as int, height as int));
        m
    }

    /// The tile at `(x, y)`.
    pub fn tile_at(&self, x: i32, y: i32) -> (t: Tile)
        requires
            self.wf(),
            self.in_bounds(x as int, y as int),
        ensures
            t == self@[x as int][y as int],
    {
        self.tiles[x as usize][y as usize]
    }

    /// The tile at `(x, y)` where that lies inside the grid, else `None`.
    pub fn get(&self, x: i64, y: i64) -> (t: Option<Tile>)
        requires
            self.wf(),
        ensures
            self.in_bounds(x as int, y as int) ==> t == Some(self@[x as int][y as int]),
            !self.in_bounds(x as int, y as int) ==> t.is_none(),
    {
        if 0 <= x && x < self.width as i64 && 0 <= y && y < self.height as i64 {
            Some(self.tiles[x as usize][y as usize])
        } else {
            None
        }
    }

    /// Opens the tile at `(x, y)`.
    pub fn carve(&mut self, x: i32, y: i32)
        requires
            old(self).wf(),
            old(self).in_bounds(x as int, y as int),
        ensures
            final(self).wf(),
            final(self).width == old(self).width,
            final(self).height == old(self).height,
            final(self)@ == old(self)@.update(x as int, old(self)@[x as int].update(y as int, empty_tile())),
    {
        self.tiles[x as usize][y as usize] = Tile::empty();
        assert(self@ =~~= old(self)@.update(x as int, old(self)@[x as int].update(y as int, empty_tile())));
    }
}

} // verus!
