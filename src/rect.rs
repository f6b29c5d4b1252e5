use vstd::prelude::*;

verus! {

/// An axis-aligned rectangle given by two corners, `(x1, y1)` and `(x2, y2)`.
#[derive(Clone, Copy, Debug, PartialEq, Eq, Structural)]
pub struct Rect {
    pub x1: i32,
    pub y1: i32,
    pub x2: i32,
    pub y2: i32,
}

/// Half of `s`, rounded toward zero (the rounding of Rust's `/` on integers).
pub open spec fn half_toward_zero(s: int) -> int {
    if s >= 0 {
        s / 2
    } else {
        -((-s) / 2)
    }
}

/// Whether `a <= v <= b` or `b <= v <= a`.
pub open spec fn between(a: int, b: int, v: int) -> bool {
    (a <= v && v <= b) || (b <= v && v <= a)
}

impl Rect {
    /// The rectangle with origin `(x, y)`, width `w` and height `h`.
    pub open spec fn spec_new(x: int, y: int, w: int, h: int) -> Rect {
        Rect { x1: x as i32, y1: y as i32, x2: (x + w) as i32, y2: (y + h) as i32 }
    }

    /// The midpoint of the two corners on each axis, rounded toward zero.
    pub open spec fn spec_center(self) -> (i32, i32) {
        (
            half_toward_zero(self.x1 + self.x2) as i32,
            half_toward_zero(self.y1 + self.y2) as i32,
        )
    }

    /// The closed intervals of the two rectangles overlap on both axes;
    /// rectangles that only touch count as intersecting.
    pub open spec fn spec_intersects(self, other: Rect) -> bool {
        self.x1 <= other.x2 && self.x2 >= other.x1 && self.y1 <= other.y2 && self.y2 >= other.y1
    }

    pub fn new(x: i32, y: i32, w: i32, h: i32) -> (r: Self)
        requires
            i32::MIN <= x + w <= i32::MAX,
            i32::MIN <= y + h <= i32::MAX,
        ensures
            r == Rect::spec_new(x as int, y as int, w as int, h as int),
            r.x1 == x,
            r.y1 == y,
            r.x2 == x + w,
            r.y2 == y + h,
    {
        Rect { x1: x, y1: y, x2: x + w, y2: y + h }
    }

    pub fn center(&self) -> (c: (i32, i32))
        ensures
            c == self.spec_center(),
            c.0 == half_toward_zero(self.x1 + self.x2),
            c.1 == half_toward_zero(self.y1 + self.y2),
    {
        (mid(self.x1, self.x2), mid(self.y1, self.y2))
    }

    pub fn intersects_with(&self, other: &Rect) -> (r: bool)
        ensures
            r == self.spec_intersects(*other),
    {
        (self.x1 <= other.x2) && (self.x2 >= other.x1) && (self.y1 <= other.y2) && (self.y2
            >= other.y1)
    }
}

/// The midpoint of `a` and `b`, rounded toward zero; the sum is taken in a
/// wider type so that it cannot overflow.
fn mid(a: i32, b: i32) -> (m: i32)
    ensures
        m == half_toward_zero(a + b),
        between(a as int, b as int, m as int),
{
    let s: i64 = a as i64 + b as i64;
    if s >= 0 {
        (s / 2) as i32
    } else {
        let n: i64 = -s;
        let q: i64 = n / 2;
        (-q) as i32
    }
}

/// Whether two rectangles intersect does not depend on which one asks.
pub proof fn lemma_intersects_symmetric(a: Rect, b: Rect)
    ensures
        a.spec_intersects(b) == b.spec_intersects(a),
{
}

/// Where `w` is even, or `x + x + w` has the sign of `w`, the center of the
/// rectangle with origin `(x, y)` and size `(w, h)` is `(x + w / 2, y + h / 2)`,
/// each half rounded toward zero (likewise for `y` and `h`).
pub proof fn lemma_center_of_new(x: i32, y: i32, w: i32, h: i32)
    requires
        i32::MIN <= x + w <= i32::MAX,
        i32::MIN <= y + h <= i32::MAX,
        w % 2 == 0 || (w > 0) == (x + x + w > 0),
        h % 2 == 0 || (h > 0) == (y + y + h > 0),
    ensures
        Rect::spec_new(x as int, y as int, w as int, h as int).spec_center() == (
            (x + half_toward_zero(w as int)) as i32,
            (y + half_toward_zero(h as int)) as i32,
        ),
{
}

} // verus!
