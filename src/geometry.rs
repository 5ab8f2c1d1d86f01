use vstd::prelude::*;

verus! {

/// Thousandths of a pixel in one pixel.
pub const UNITS_PER_PIXEL: i64 = 1000;

/// Largest magnitude of a coordinate that the overlap test accepts.
pub const COORD_LIMIT: i64 = 35_000_000_000_000;

/// Largest radius that the overlap test accepts.
pub const RADIUS_LIMIT: i64 = 1_000_000;

/// The arena's extent in whole pixels.
#[derive(Clone, Copy, Debug, PartialEq, Eq, Structural)]
pub struct Size {
    pub width: u32,
    pub height: u32,
}

impl Size {
    pub fn new(width: u32, height: u32) -> (r: Size)
        ensures
            r.width == width,
            r.height == height,
    {
        Size { width, height }
    }

    /// The right edge of the arena, in thousandths of a pixel.
    pub open spec fn right(self) -> int {
        self.width as int * UNITS_PER_PIXEL
    }

    /// The bottom edge of the arena, in thousandths of a pixel.
    pub open spec fn bottom(self) -> int {
        self.height as int * UNITS_PER_PIXEL
    }

    pub fn right_edge(&self) -> (r: i64)
        ensures
            r == self.right(),
    {
        self.width as i64 * UNITS_PER_PIXEL
    }

    pub fn bottom_edge(&self) -> (r: i64)
        ensures
            r == self.bottom(),
    {
        self.height as i64 * UNITS_PER_PIXEL
    }
}

/// A position in thousandths of a pixel; y grows downwards.
#[derive(Clone, Copy, Debug, PartialEq, Eq, Structural)]
pub struct Point {
    pub x: i64,
    pub y: i64,
}

impl Point {
    pub fn new(x: i64, y: i64) -> (r: Point)
        ensures
            r.x == x,
            r.y == y,
    {
        Point { x, y }
    }

    pub open spec fn in_range(self) -> bool {
        -COORD_LIMIT <= self.x <= COORD_LIMIT && -COORD_LIMIT <= self.y <= COORD_LIMIT
    }
}

/// Two circles overlap when their centres are closer than the sum of their radii.
pub open spec fn circles_overlap(a: Point, ra: int, b: Point, rb: int) -> bool {
    let dx = a.x - b.x;
    let dy = a.y - b.y;
    dx * dx + dy * dy < (ra + rb) * (ra + rb)
}

/// Exact overlap test of the circle of radius `ra` about `a` and the circle of
/// radius `rb` about `b`; touching circles do not overlap.
pub fn overlaps(a: Point, ra: i64, b: Point, rb: i64) -> (r: bool)
    requires
        a.in_range(),
        b.in_range(),
        0 <= ra <= RADIUS_LIMIT,
        0 <= rb <= RADIUS_LIMIT,
    ensures
        r == circles_overlap(a, ra as int, b, rb as int),
{
    let dx: i128 = a.x as i128 - b.x as i128;
    let dy: i128 = a.y as i128 - b.y as i128;
    let reach: i128 = ra as i128 + rb as i128;
    assert(0 <= dx * dx <= 0x1_0000_0000_0000_0000_0000_0000) by (nonlinear_arith)
        requires
            -0x4000_0000_0000 <= dx <= 0x4000_0000_0000,
    ;
    assert(0 <= dy * dy <= 0x1_0000_0000_0000_0000_0000_0000) by (nonlinear_arith)
        requires
            -0x4000_0000_0000 <= dy <= 0x4000_0000_0000,
    ;
    assert(0 <= reach * reach <= 0x1_0000_0000_0000) by (nonlinear_arith)
        requires
            0 <= reach <= 0x100_0000,
    ;
    dx * dx + dy * dy < reach * reach
}

} // verus!
