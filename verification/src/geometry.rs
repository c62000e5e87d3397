//! Positions, sizes and rectangles in physical pixels.
//!
//! All coordinates use a top-left origin with y increasing downward, on
//! every platform; the macOS driver flips its native bottom-left-origin
//! coordinates into this convention before any event is emitted.

use vstd::prelude::*;

verus! {

/// A position in physical pixels, top-left origin, y increasing downward.
#[derive(Clone, Copy, Debug, PartialEq, Eq, Structural)]
pub struct PhysicalPosition {
    pub x: i64,
    pub y: i64,
}

impl PhysicalPosition {
    pub fn new(x: i64, y: i64) -> (r: Self)
        ensures
            r == (PhysicalPosition { x, y }),
    {
        PhysicalPosition { x, y }
    }
}

/// A size in physical pixels.
#[derive(Clone, Copy, Debug, PartialEq, Eq, Structural)]
pub struct PhysicalSize {
    pub width: u32,
    pub height: u32,
}

impl PhysicalSize {
    pub fn new(width: u32, height: u32) -> (r: Self)
        ensures
            r == (PhysicalSize { width, height }),
    {
        PhysicalSize { width, height }
    }
}

/// Describes a rectangle including position (x - y axis) and size.
#[derive(Clone, Copy, Debug, PartialEq, Eq, Structural)]
pub struct Rect {
    pub size: PhysicalSize,
    pub position: PhysicalPosition,
}

impl Default for Rect {
    fn default() -> (r: Self)
        ensures
            r == (Rect {
                size: PhysicalSize { width: 0, height: 0 },
                position: PhysicalPosition { x: 0, y: 0 },
            }),
    {
        Rect {
            size: PhysicalSize { width: 0, height: 0 },
            position: PhysicalPosition { x: 0, y: 0 },
        }
    }
}

/// Whether `p` lies inside `r`: within `[x, x + width)` horizontally and
/// `[y, y + height)` vertically.
pub open spec fn spec_rect_contains(r: Rect, p: PhysicalPosition) -> bool {
    &&& r.position.x <= p.x < r.position.x + r.size.width
    &&& r.position.y <= p.y < r.position.y + r.size.height
}

/// The rectangle described by native edge coordinates; see
/// [`Rect::from_bounds`].
pub open spec fn spec_rect_from_bounds(left: i32, top: i32, right: i32, bottom: i32) -> Rect {
    Rect {
        position: PhysicalPosition { x: left as i64, y: top as i64 },
        size: PhysicalSize {
            width: if right >= left {
                (right - left) as u32
            } else {
                0
            },
            height: if bottom >= top {
                (bottom - top) as u32
            } else {
                0
            },
        },
    }
}

impl Rect {
    /// Whether the given position lies inside this rectangle.
    pub fn contains(&self, p: PhysicalPosition) -> (r: bool)
        ensures
            r == spec_rect_contains(*self, p),
    {
        let x_ok = self.position.x <= p.x
            && (p.x as i128) - (self.position.x as i128) < self.size.width as i128;
        let y_ok = self.position.y <= p.y
            && (p.y as i128) - (self.position.y as i128) < self.size.height as i128;
        x_ok && y_ok
    }

    /// Builds a rectangle from native edge coordinates (left, top, right,
    /// bottom), as delivered by the Windows shell. The width and height are
    /// the edge differences, clamped at zero for a degenerate rectangle
    /// whose right edge lies left of its left edge (or bottom above top).
    pub fn from_bounds(left: i32, top: i32, right: i32, bottom: i32) -> (r: Rect)
        ensures
            r == spec_rect_from_bounds(left, top, right, bottom),
    {
        let width: u32 = if right >= left {
            (right as i64 - left as i64) as u32
        } else {
            0
        };
        let height: u32 = if bottom >= top {
            (bottom as i64 - top as i64) as u32
        } else {
            0
        };
        Rect {
            position: PhysicalPosition { x: left as i64, y: top as i64 },
            size: PhysicalSize { width, height },
        }
    }
}

/// Converts a y coordinate between the two native macOS screen conventions:
/// bottom-left origin with y increasing upward, and top-left origin with y
/// increasing downward, on a main display `pixels_high` pixels tall. The
/// conversion is its own inverse.
pub fn flip_screen_y(pixels_high: u32, y: i64) -> (r: i64)
    requires
        -0x2000_0000_0000 <= y <= 0x2000_0000_0000,
    ensures
        r == pixels_high - y,
{
    pixels_high as i64 - y
}

/// Flipping a y coordinate twice yields the original coordinate.
pub proof fn lemma_flip_screen_y_involutive(pixels_high: u32, y: int)
    ensures
        pixels_high - (pixels_high - y) == y,
{
}

} // verus!
