use vstd::prelude::*;

verus! {

/// A position on an 8-bit grid; arithmetic on it wraps modulo 256.
#[derive(Clone, Copy, PartialEq, Eq, Structural, Debug)]
pub struct Point {
    pub x: u8,
    pub y: u8,
}

/// The sentinel that terminates a glyph's point list.
pub open spec fn last_point() -> Point {
    Point { x: 254, y: 254 }
}

/// The sentinel for a pen-up break between two strokes.
pub open spec fn none_point() -> Point {
    Point { x: 255, y: 255 }
}

/// `v` reduced into `0..256`.
pub open spec fn wrap8(v: int) -> u8 {
    (v % 256) as u8
}

/// An `i32` reduced modulo 256, as a cast to `u8` does.
pub fn wrap_i32_to_u8(v: i32) -> (r: u8)
    ensures
        r == wrap8(v as int),
{
    // 2^31 is a multiple of 256, so shifting by it keeps the residue.
    let shifted: i64 = v as i64 + 0x8000_0000i64;
    let m: i64 = shifted % 256;
    assert(m == (v as int) % 256) by {
        assert((v as int + 0x8000_0000) % 256 == (v as int) % 256) by (nonlinear_arith)
            requires
                0x8000_0000 == 256 * 0x80_0000,
        ;
    }
    m as u8
}

/// An integer of moderate size reduced modulo 256.
pub fn wrap_i128_to_u8(v: i128) -> (r: u8)
    requires
        -0x0100_0000_0000_0000_0000_0000_0000_0000 <= v <= 0x0100_0000_0000_0000_0000_0000_0000_0000,
    ensures
        r == wrap8(v as int),
{
    // 2^121 is a multiple of 256, so shifting by it keeps the residue.
    let shifted: i128 = v + 0x0200_0000_0000_0000_0000_0000_0000_0000i128;
    let m: i128 = shifted % 256;
    assert(m == (v as int) % 256) by {
        assert((v as int + 0x0200_0000_0000_0000_0000_0000_0000_0000) % 256 == (v as int) % 256)
            by (nonlinear_arith)
            requires
                0x0200_0000_0000_0000_0000_0000_0000_0000 == 256
                    * 0x0002_0000_0000_0000_0000_0000_0000_0000int,
        ;
    }
    m as u8
}

impl Point {
    /// The sentinel that terminates a glyph's point list.
    pub fn last() -> (r: Point)
        ensures
            r == last_point(),
    {
        Point { x: 254, y: 254 }
    }

    /// The pen-up sentinel.
    pub fn none() -> (r: Point)
        ensures
            r == none_point(),
    {
        Point { x: 255, y: 255 }
    }

    pub open spec fn plus_spec(self, o: Point) -> Point {
        Point { x: wrap8(self.x + o.x), y: wrap8(self.y + o.y) }
    }

    pub open spec fn mov_spec(self, dx: int, dy: int) -> Point {
        Point { x: wrap8(self.x + dx), y: wrap8(self.y + dy) }
    }

    /// The point with both coordinates reduced modulo 256.
    pub fn new(x: i32, y: i32) -> (r: Point)
        ensures
            r == (Point { x: wrap8(x as int), y: wrap8(y as int) }),
    {
        Point { x: wrap_i32_to_u8(x), y: wrap_i32_to_u8(y) }
    }

    /// Component-wise sum, wrapping.
    pub fn plus(self, other: Point) -> (r: Point)
        ensures
            r == self.plus_spec(other),
    {
        Point {
            x: ((self.x as u16 + other.x as u16) % 256) as u8,
            y: ((self.y as u16 + other.y as u16) % 256) as u8,
        }
    }

    /// The point moved by `(x, y)`, wrapping.
    pub fn mov(self, x: i32, y: i32) -> (r: Point)
        requires
            -0x7fff_ff00 <= x <= 0x7fff_ff00,
            -0x7fff_ff00 <= y <= 0x7fff_ff00,
        ensures
            r == self.mov_spec(x as int, y as int),
    {
        let nx = wrap_i32_to_u8(self.x as i32 + x);
        let ny = wrap_i32_to_u8(self.y as i32 + y);
        Point { x: nx, y: ny }
    }
}

} // verus!
