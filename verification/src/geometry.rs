//! Points, colours and axis-aligned rectangles, in logical and physical pixels.

use vstd::prelude::*;

verus! {

/// A position in logical pixels.
#[derive(Clone, Copy, Debug, PartialEq, Eq, Structural)]
pub struct Point {
    pub x: i32,
    pub y: i32,
}

impl Point {
    pub fn new(x: i32, y: i32) -> (p: Point)
        ensures
            p == (Point { x, y }),
    {
        Point { x, y }
    }
}

/// A colour with one byte per channel.
#[derive(Clone, Copy, Debug, PartialEq, Eq, Structural)]
pub struct Color {
    pub r: u8,
    pub g: u8,
    pub b: u8,
    pub a: u8,
}

impl Color {
    /// An opaque colour.
    pub fn rgb(r: u8, g: u8, b: u8) -> (c: Color)
        ensures
            c == (Color { r, g, b, a: 255 }),
    {
        Color { r, g, b, a: 255 }
    }

    pub fn rgba(r: u8, g: u8, b: u8, a: u8) -> (c: Color)
        ensures
            c == (Color { r, g, b, a }),
    {
        Color { r, g, b, a }
    }

    pub open spec fn spec_gray() -> Color {
        Color { r: 128, g: 128, b: 128, a: 255 }
    }

    /// Mid gray, the colour of the sample widgets.
    pub fn gray() -> (c: Color)
        ensures
            c == Color::spec_gray(),
    {
        Color { r: 128, g: 128, b: 128, a: 255 }
    }
}

/// Whether `(px, py)` lies in the rectangle with origin `(x, y)` and size
/// `w` by `h`. All four edges belong to the rectangle, so two rectangles
/// that touch share the pixels of their common edge.
pub open spec fn covers(x: int, y: int, w: int, h: int, px: int, py: int) -> bool {
    x <= px <= x + w && y <= py <= y + h
}

/// An axis-aligned rectangle in logical pixels.
#[derive(Clone, Copy, Debug, PartialEq, Eq, Structural)]
pub struct Rect {
    pub x: i32,
    pub y: i32,
    pub w: u32,
    pub h: u32,
}

/// A rectangle in physical pixels. The fields are wide enough for every
/// logical rectangle at every scale factor.
#[derive(Clone, Copy, Debug, PartialEq, Eq, Structural)]
pub struct PhysicalRect {
    pub x: i64,
    pub y: i64,
    pub w: u64,
    pub h: u64,
}

/// One filled rectangle for the renderer to paint. Without a colour the
/// renderer keeps the colour it has.
#[derive(Clone, Copy, Debug, PartialEq, Eq, Structural)]
pub struct FillRect {
    pub area: PhysicalRect,
    pub color: Option<Color>,
}

impl Rect {
    pub fn new(x: i32, y: i32, w: u32, h: u32) -> (r: Rect)
        ensures
            r == (Rect { x, y, w, h }),
    {
        Rect { x, y, w, h }
    }

    pub open spec fn spec_contains(self, px: int, py: int) -> bool {
        covers(self.x as int, self.y as int, self.w as int, self.h as int, px, py)
    }

    /// Inclusive containment test.
    pub fn contains(&self, px: i32, py: i32) -> (inside: bool)
        ensures
            inside == self.spec_contains(px as int, py as int),
    {
        let x: i64 = self.x as i64;
        let y: i64 = self.y as i64;
        let px: i64 = px as i64;
        let py: i64 = py as i64;
        px >= x && px <= x + self.w as i64 && py >= y && py <= y + self.h as i64
    }

    pub open spec fn spec_to_physical(self, scale: u32) -> PhysicalRect {
        PhysicalRect {
            x: (self.x * scale) as i64,
            y: (self.y * scale) as i64,
            w: (self.w * scale) as u64,
            h: (self.h * scale) as u64,
        }
    }

    /// Maps the rectangle to physical pixels: origin and size are each
    /// multiplied by the scale factor.
    pub fn to_physical(&self, scale: u32) -> (p: PhysicalRect)
        ensures
            p == self.spec_to_physical(scale),
            p.x == self.x * scale,
            p.y == self.y * scale,
            p.w == self.w * scale,
            p.h == self.h * scale,
    {
        proof {
            lemma_scaled_position_fits(self.x as int, scale as int);
            lemma_scaled_position_fits(self.y as int, scale as int);
            lemma_scaled_size_fits(self.w as int, scale as int);
            lemma_scaled_size_fits(self.h as int, scale as int);
        }
        PhysicalRect {
            x: self.x as i64 * scale as i64,
            y: self.y as i64 * scale as i64,
            w: self.w as u64 * scale as u64,
            h: self.h as u64 * scale as u64,
        }
    }
}

/// A 32-bit position times a 32-bit scale factor fits in 64 bits.
pub proof fn lemma_scaled_position_fits(v: int, scale: int)
    requires
        i32::MIN <= v <= i32::MAX,
        0 <= scale <= u32::MAX,
    ensures
        i64::MIN <= v * scale <= i64::MAX,
{
    assert(i64::MIN <= v * scale <= i64::MAX) by (nonlinear_arith)
        requires
            -0x8000_0000 <= v <= 0x7fff_ffff,
            0 <= scale <= 0xffff_ffff,
    ;
}

/// A 32-bit size times a 32-bit scale factor fits in 64 bits.
pub proof fn lemma_scaled_size_fits(v: int, scale: int)
    requires
        0 <= v <= u32::MAX,
        0 <= scale <= u32::MAX,
    ensures
        0 <= v * scale <= u64::MAX,
{
    assert(0 <= v * scale <= u64::MAX) by (nonlinear_arith)
        requires
            0 <= v <= 0xffff_ffff,
            0 <= scale <= 0xffff_ffff,
    ;
}

/// The window's physical size is not one whole multiple of its logical size
/// in both directions.
#[derive(Clone, Copy, Debug, PartialEq, Eq, Structural)]
pub struct ScaleMismatchError {
    pub logical_w: u32,
    pub logical_h: u32,
    pub physical_w: u32,
    pub physical_h: u32,
}

impl ScaleMismatchError {
    pub open spec fn of(logical: (u32, u32), physical: (u32, u32)) -> ScaleMismatchError {
        ScaleMismatchError {
            logical_w: logical.0,
            logical_h: logical.1,
            physical_w: physical.0,
            physical_h: physical.1,
        }
    }
}

/// The scale factor of a window: physical pixels per logical pixel, rounded
/// down, where that number is the same horizontally and vertically.
pub open spec fn spec_scale_factor(
    logical: (u32, u32),
    physical: (u32, u32),
) -> Result<u32, ScaleMismatchError> {
    if logical.0 > 0 && logical.1 > 0 && physical.0 as int / logical.0 as int == physical.1 as int
        / logical.1 as int {
        Ok((physical.0 as int / logical.0 as int) as u32)
    } else {
        Err(ScaleMismatchError::of(logical, physical))
    }
}

/// Computes the scale factor from a window's logical and physical size.
/// A window that scales differently in the two directions is refused, and
/// so is one with an empty logical size, which has no ratio.
pub fn scale_factor(
    logical: (u32, u32),
    physical: (u32, u32),
) -> (r: Result<u32, ScaleMismatchError>)
    ensures
        r == spec_scale_factor(logical, physical),
{
    let mismatch = ScaleMismatchError {
        logical_w: logical.0,
        logical_h: logical.1,
        physical_w: physical.0,
        physical_h: physical.1,
    };
    if logical.0 == 0 || logical.1 == 0 {
        return Err(mismatch);
    }
    let horizontal: u32 = physical.0 / logical.0;
    let vertical: u32 = physical.1 / logical.1;
    if horizontal == vertical {
        Ok(horizontal)
    } else {
        Err(mismatch)
    }
}

} // verus!
