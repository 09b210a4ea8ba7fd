//! Points, sizes and axis-aligned rectangles on the integer canvas.
use vstd::prelude::*;

verus! {

/// A point or displacement, in thousandths of a pixel.
#[derive(Clone, Copy, Debug, PartialEq, Eq, Structural)]
pub struct Vec2 {
    pub x: i64,
    pub y: i64,
}

impl Vec2 {
    pub fn new(x: i64, y: i64) -> (r: Vec2)
        ensures
            r.x == x,
            r.y == y,
    {
        Vec2 { x, y }
    }
}

/// The footprint of a sprite, in thousandths of a pixel.
#[derive(Clone, Copy, Debug, PartialEq, Eq, Structural)]
pub struct Size {
    pub width: i64,
    pub height: i64,
}

impl Size {
    /// Sprite footprints are at most a screen's worth in either direction.
    pub open spec fn wf(self) -> bool {
        0 <= self.width <= crate::SCREEN_WIDTH && 0 <= self.height <= crate::SCREEN_WIDTH
    }
}

/// An axis-aligned rectangle, held in `i128` so that its corners never overflow.
#[derive(Clone, Copy, Debug, PartialEq, Eq, Structural)]
pub struct Rect {
    pub x: i128,
    pub y: i128,
    pub width: i128,
    pub height: i128,
}

/// The rectangle of footprint `size` centred on `center`.
pub open spec fn centered(center: Vec2, size: Size) -> Rect {
    Rect {
        x: (center.x - size.width / 2) as i128,
        y: (center.y - size.height / 2) as i128,
        width: size.width as i128,
        height: size.height as i128,
    }
}

/// Two rectangles overlap in an area of positive size.
pub open spec fn overlaps(a: Rect, b: Rect) -> bool {
    a.x < b.x + b.width && a.x + a.width > b.x && a.y < b.y + b.height && a.y + a.height > b.y
}

impl Rect {
    /// The rectangle of footprint `size` centred on `center`.
    pub fn centered_on(center: Vec2, size: Size) -> (r: Rect)
        requires
            size.wf(),
        ensures
            r == centered(center, size),
    {
        Rect {
            x: center.x as i128 - (size.width / 2) as i128,
            y: center.y as i128 - (size.height / 2) as i128,
            width: size.width as i128,
            height: size.height as i128,
        }
    }

    /// Whether the two rectangles overlap; touching edges do not count.
    pub fn intersects(&self, other: &Rect) -> (r: bool)
        requires
            -0x1_0000_0000_0000_0000 <= self.x <= 0x1_0000_0000_0000_0000,
            -0x1_0000_0000_0000_0000 <= self.y <= 0x1_0000_0000_0000_0000,
            -0x1_0000_0000_0000_0000 <= other.x <= 0x1_0000_0000_0000_0000,
            -0x1_0000_0000_0000_0000 <= other.y <= 0x1_0000_0000_0000_0000,
            0 <= self.width <= 0x1_0000_0000_0000_0000,
            0 <= self.height <= 0x1_0000_0000_0000_0000,
            0 <= other.width <= 0x1_0000_0000_0000_0000,
            0 <= other.height <= 0x1_0000_0000_0000_0000,
        ensures
            r == overlaps(*self, *other),
    {
        self.x < other.x + other.width && self.x + self.width > other.x && self.y < other.y
            + other.height && self.y + self.height > other.y
    }
}

/// The squared distance between two points, in square thousandths of a pixel.
pub open spec fn dist_sq(a: Vec2, b: Vec2) -> int {
    (a.x - b.x) * (a.x - b.x) + (a.y - b.y) * (a.y - b.y)
}

/// Whether the two points lie strictly closer than `radius`.
pub fn within(a: Vec2, b: Vec2, radius: i64) -> (r: bool)
    requires
        0 <= radius <= 1_000_000_000,
    ensures
        r == (dist_sq(a, b) < radius * radius),
{
    let dx: i128 = a.x as i128 - b.x as i128;
    let dy: i128 = a.y as i128 - b.y as i128;
    let adx: i128 = if dx < 0 { -dx } else { dx };
    let ady: i128 = if dy < 0 { -dy } else { dy };
    let rr: i128 = radius as i128;
    if adx >= rr || ady >= rr {
        proof {
            assert(adx * adx + ady * ady >= rr * rr) by (nonlinear_arith)
                requires adx >= 0, ady >= 0, rr >= 0, adx >= rr || ady >= rr,;
            assert(dx * dx == adx * adx && dy * dy == ady * ady) by (nonlinear_arith)
                requires adx == dx || adx == -dx, ady == dy || ady == -dy,;
        }
        false
    } else {
        proof {
            assert(adx * adx <= rr * rr && ady * ady <= rr * rr) by (nonlinear_arith)
                requires 0 <= adx < rr, 0 <= ady < rr,;
            assert(rr * rr <= 1_000_000_000_000_000_000) by (nonlinear_arith)
                requires 0 <= rr <= 1_000_000_000,;
            assert(dx * dx == adx * adx && dy * dy == ady * ady) by (nonlinear_arith)
                requires adx == dx || adx == -dx, ady == dy || ady == -dy,;
        }
        adx * adx + ady * ady < rr * rr
    }
}

} // verus!
