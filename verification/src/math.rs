//! Pixel geometry and 8-bit colours.

use vstd::prelude::*;

verus! {

/// A position in pixels, origin at the bottom-left corner.
#[derive(Clone, Copy, Debug, PartialEq, Eq, Structural, Hash)]
pub struct Vec2 {
    pub x: u32,
    pub y: u32,
}

/// A size in pixels.
#[derive(Clone, Copy, Debug, PartialEq, Eq, Structural, Hash)]
pub struct Extent2 {
    pub w: u32,
    pub h: u32,
}

/// A pixel rectangle: `x, y` is its bottom-left corner.
#[derive(Clone, Copy, Debug, PartialEq, Eq, Structural, Hash)]
pub struct Rect {
    pub x: u32,
    pub y: u32,
    pub w: u32,
    pub h: u32,
}

/// A colour of three 8-bit channels.
#[derive(Clone, Copy, Debug, PartialEq, Eq, Structural, Hash)]
pub struct Rgb {
    pub r: u8,
    pub g: u8,
    pub b: u8,
}

/// A colour of four 8-bit channels. A channel `c` stands for the intensity
/// `c / 255`.
#[derive(Clone, Copy, Debug, PartialEq, Eq, Structural, Hash)]
pub struct Rgba {
    pub r: u8,
    pub g: u8,
    pub b: u8,
    pub a: u8,
}

impl Vec2 {
    pub fn new(x: u32, y: u32) -> (p: Self)
        ensures
            p == (Vec2 { x, y }),
    {
        Vec2 { x, y }
    }
}

impl Extent2 {
    pub fn new(w: u32, h: u32) -> (e: Self)
        ensures
            e == (Extent2 { w, h }),
    {
        Extent2 { w, h }
    }

    /// The extent with both sides equal to `v`.
    pub fn broadcast(v: u32) -> (e: Self)
        ensures
            e == (Extent2 { w: v, h: v }),
    {
        Extent2 { w: v, h: v }
    }

    /// The extent of a single pixel.
    pub fn one() -> (e: Self)
        ensures
            e == (Extent2 { w: 1, h: 1 }),
    {
        Extent2 { w: 1, h: 1 }
    }
}

impl Rgb {
    pub fn new(r: u8, g: u8, b: u8) -> (c: Self)
        ensures
            c == (Rgb { r, g, b }),
    {
        Rgb { r, g, b }
    }
}

impl Rgba {
    pub fn new(r: u8, g: u8, b: u8, a: u8) -> (c: Self)
        ensures
            c == (Rgba { r, g, b, a }),
    {
        Rgba { r, g, b, a }
    }

    /// The fully opaque colour of the given channels.
    pub fn new_opaque(r: u8, g: u8, b: u8) -> (c: Self)
        ensures
            c == (Rgba { r, g, b, a: 255 }),
    {
        Rgba { r, g, b, a: 255 }
    }

    /// Transparent black: every channel is zero.
    pub fn zero() -> (c: Self)
        ensures
            c == (Rgba { r: 0, g: 0, b: 0, a: 0 }),
    {
        Rgba { r: 0, g: 0, b: 0, a: 0 }
    }

    /// The opaque grey of intensity `v`.
    pub fn grey(v: u8) -> (c: Self)
        ensures
            c == (Rgba { r: v, g: v, b: v, a: 255 }),
    {
        Rgba { r: v, g: v, b: v, a: 255 }
    }

    pub fn magenta() -> (c: Self)
        ensures
            c == (Rgba { r: 255, g: 0, b: 255, a: 255 }),
    {
        Rgba { r: 255, g: 0, b: 255, a: 255 }
    }

    pub fn cyan() -> (c: Self)
        ensures
            c == (Rgba { r: 0, g: 255, b: 255, a: 255 }),
    {
        Rgba { r: 0, g: 255, b: 255, a: 255 }
    }
}

impl Rect {
    /// The right edge, one past the last column.
    pub open spec fn right(self) -> int {
        self.x + self.w
    }

    /// The top edge, one past the last row.
    pub open spec fn top(self) -> int {
        self.y + self.h
    }

    /// Both far edges are representable positions.
    pub open spec fn fits(self) -> bool {
        self.right() <= u32::MAX && self.top() <= u32::MAX
    }

    /// The rectangle owns the points from its left and bottom edges up to,
    /// but without, its right and top edges. Two rectangles that share an
    /// edge therefore share no point: a point on the divider belongs to the
    /// rectangle on its right, or above it.
    pub open spec fn contains(self, p: Vec2) -> bool {
        self.x <= p.x < self.right() && self.y <= p.y < self.top()
    }

    /// The lower half of a horizontal cut: the height is halved, rounding down.
    pub open spec fn bottom_half(self) -> Rect {
        Rect { h: self.h / 2, ..self }
    }

    /// The upper half of a horizontal cut: what `bottom_half` leaves.
    pub open spec fn top_half(self) -> Rect {
        Rect { y: (self.y + self.h / 2) as u32, h: (self.h - self.h / 2) as u32, ..self }
    }

    /// The left half of a vertical cut: the width is halved, rounding down.
    pub open spec fn left_half(self) -> Rect {
        Rect { w: self.w / 2, ..self }
    }

    /// The right half of a vertical cut: what `left_half` leaves.
    pub open spec fn right_half(self) -> Rect {
        Rect { x: (self.x + self.w / 2) as u32, w: (self.w - self.w / 2) as u32, ..self }
    }

    pub fn new(x: u32, y: u32, w: u32, h: u32) -> (r: Self)
        ensures
            r == (Rect { x, y, w, h }),
    {
        Rect { x, y, w, h }
    }

    /// The rectangle of the given size with its corner at the origin.
    pub fn from_extent(size: Extent2) -> (r: Self)
        ensures
            r == (Rect { x: 0, y: 0, w: size.w, h: size.h }),
            r.fits(),
    {
        Rect { x: 0, y: 0, w: size.w, h: size.h }
    }

    /// Whether both far edges are representable, which the cuts ask for.
    pub fn is_representable(&self) -> (b: bool)
        ensures
            b == self.fits(),
    {
        self.w <= u32::MAX - self.x && self.h <= u32::MAX - self.y
    }

    pub fn contains_point(&self, p: Vec2) -> (b: bool)
        ensures
            b == self.contains(p),
    {
        self.x <= p.x && p.x - self.x < self.w && self.y <= p.y && p.y - self.y < self.h
    }

    /// Cuts the rectangle along a horizontal line through its middle.
    pub fn cut_horizontal(&self) -> (halves: (Rect, Rect))
        requires
            self.fits(),
        ensures
            halves.0 == self.bottom_half(),
            halves.1 == self.top_half(),
            halves.0.fits(),
            halves.1.fits(),
    {
        let h0: u32 = self.h / 2;
        (
            Rect { x: self.x, y: self.y, w: self.w, h: h0 },
            Rect { x: self.x, y: self.y + h0, w: self.w, h: self.h - h0 },
        )
    }

    /// Cuts the rectangle along a vertical line through its middle.
    pub fn cut_vertical(&self) -> (halves: (Rect, Rect))
        requires
            self.fits(),
        ensures
            halves.0 == self.left_half(),
            halves.1 == self.right_half(),
            halves.0.fits(),
            halves.1.fits(),
    {
        let w0: u32 = self.w / 2;
        (
            Rect { x: self.x, y: self.y, w: w0, h: self.h },
            Rect { x: self.x + w0, y: self.y, w: self.w - w0, h: self.h },
        )
    }
}

} // verus!
