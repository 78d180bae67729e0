use vstd::prelude::*;

verus! {

/// Positions, sizes and displacements are held in fixed-point milli-units:
/// 1000 milli-units are one world unit (one pixel at scale 1). Velocities are
/// held in milli-units per millisecond, which is the same number as world
/// units per second, so a velocity of 500 means 500.0 units per second and a
/// timestep is a whole number of milliseconds. All arithmetic on these values
/// is exact.
#[derive(Clone, Copy, PartialEq, Eq, Structural, Debug)]
pub struct Vec2 {
    pub x: i64,
    pub y: i64,
}

impl Vec2 {
    pub fn new(x: i64, y: i64) -> (v: Vec2)
        ensures
            v == (Vec2 { x, y }),
    {
        Vec2 { x, y }
    }

    /// The origin / the vector with both components zero.
    pub fn zero() -> (v: Vec2)
        ensures
            v == (Vec2 { x: 0, y: 0 }),
    {
        Vec2 { x: 0, y: 0 }
    }
}

/// An RGBA colour with 8-bit channels.
#[derive(Clone, Copy, PartialEq, Eq, Structural, Debug)]
pub struct Color {
    pub r: u8,
    pub g: u8,
    pub b: u8,
    pub a: u8,
}

impl Color {
    pub fn red() -> (c: Color)
        ensures
            c == (Color { r: 255, g: 0, b: 0, a: 255 }),
    {
        Color { r: 255, g: 0, b: 0, a: 255 }
    }

    pub fn green() -> (c: Color)
        ensures
            c == (Color { r: 0, g: 255, b: 0, a: 255 }),
    {
        Color { r: 0, g: 255, b: 0, a: 255 }
    }

    pub fn blue() -> (c: Color)
        ensures
            c == (Color { r: 0, g: 0, b: 255, a: 255 }),
    {
        Color { r: 0, g: 0, b: 255, a: 255 }
    }
}

/// A window's draw size in pixels, passed into the shell as a read-only
/// snapshot wherever the windowing collaborator would hand out a window
/// handle.
#[derive(Clone, Copy, PartialEq, Eq, Structural, Debug)]
pub struct Size {
    pub width: u32,
    pub height: u32,
}

/// A draw command for a filled square: the render surface translates to
/// `center`, rotates by `rotation` milli-radians, translates back by `half`
/// (half the side) on both axes, and fills the square whose top-left corner
/// is `corner` with side `size` in `color`. All lengths are in milli-units.
#[derive(Clone, Copy, PartialEq, Eq, Structural, Debug)]
pub struct SquareDraw {
    pub color: Color,
    pub corner: Vec2,
    pub size: i64,
    pub rotation: i64,
    pub center: Vec2,
    pub half: i64,
}

/// `v` held into the closed interval `[lo, hi]`.
pub open spec fn clamp_spec(v: int, lo: int, hi: int) -> int {
    if v < lo {
        lo
    } else if v > hi {
        hi
    } else {
        v
    }
}

pub fn clamp(v: i64, lo: i64, hi: i64) -> (r: i64)
    requires
        lo <= hi,
    ensures
        r == clamp_spec(v as int, lo as int, hi as int),
{
    if v < lo {
        lo
    } else if v > hi {
        hi
    } else {
        v
    }
}

} // verus!
