//! Plane geometry for widget layout: points, rectangles and alignment.
//!
//! Coordinates are signed 32-bit integers and extents are unsigned, so every
//! `Rect` value is a rectangle. Positions that the layout computes are taken as
//! mathematical integers and brought into the coordinate range only at the very
//! end, by [`clamp_coord`].

use vstd::prelude::*;

verus! {

/// Denominator of the fraction that [`Align::CenterAt`] carries.
pub const WHOLE: u16 = 1000;

/// The fraction that puts the anchor in the exact middle of the extent.
pub const HALF: u16 = 500;

/// Largest content length, along one axis, that [`offset_within`] accepts.
pub const CONTENT_LIMIT: u128 = 0x1_0000_0000_0000_0000_0000_0000;

/// No offset that [`offset_within`] computes is larger than this.
pub const OFFSET_LIMIT: i128 = 0x1_0000_0000_0000;

/// A position on the integer grid; also the place of a pointer event.
#[derive(Clone, Copy, Debug, PartialEq, Eq, Structural)]
pub struct Point {
    pub x: i32,
    pub y: i32,
}

/// An axis-aligned rectangle: its top-left corner and its two extents.
///
/// Either extent may be zero.
#[derive(Clone, Copy, Debug, PartialEq, Eq, Structural)]
pub struct Rect {
    pub origin: Point,
    pub width: u32,
    pub height: u32,
}

/// Where content goes along one axis of the space it is given.
#[derive(Clone, Copy, Debug, PartialEq, Eq, Structural)]
pub enum Align {
    /// Flush with the low edge (left, or top).
    Start,
    /// Flush with the high edge (right, or bottom).
    End,
    /// The middle of the content sits on an anchor, given in thousandths of the
    /// extent measured from the low edge: [`HALF`] centres the content, smaller
    /// values move it towards the low edge and larger ones towards the high
    /// edge. [`WHOLE`] is the high edge itself; an anchor beyond it lies outside
    /// the extent.
    CenterAt(u16),
}

impl Point {
    pub fn new(x: i32, y: i32) -> (p: Point)
        ensures
            p == (Point { x, y }),
    {
        Point { x, y }
    }
}

impl Default for Point {
    /// The origin of the grid.
    fn default() -> (p: Point)
        ensures
            p == (Point { x: 0, y: 0 }),
    {
        Point { x: 0, y: 0 }
    }
}

impl Rect {
    /// The column of the left edge.
    pub open spec fn left(self) -> int {
        self.origin.x as int
    }

    /// The column just past the right edge.
    pub open spec fn right(self) -> int {
        self.origin.x + self.width
    }

    /// The row of the top edge.
    pub open spec fn top(self) -> int {
        self.origin.y as int
    }

    /// The row just past the bottom edge.
    pub open spec fn bottom(self) -> int {
        self.origin.y + self.height
    }

    /// The right edge is a column of the grid, so that every column of the
    /// rectangle can be the origin of another.
    pub open spec fn columns_on_grid(self) -> bool {
        self.right() <= i32::MAX
    }

    /// The bottom edge is a row of the grid.
    pub open spec fn rows_on_grid(self) -> bool {
        self.bottom() <= i32::MAX
    }

    /// `self` does not reach past the left or right edge of `outer`.
    pub open spec fn within_columns_of(self, outer: Rect) -> bool {
        outer.left() <= self.left() && self.right() <= outer.right()
    }

    /// `self` does not reach past the top or bottom edge of `outer`.
    pub open spec fn within_rows_of(self, outer: Rect) -> bool {
        outer.top() <= self.top() && self.bottom() <= outer.bottom()
    }

    /// The two rectangles share no column.
    pub open spec fn columns_disjoint_from(self, other: Rect) -> bool {
        self.right() <= other.left() || other.right() <= self.left()
    }

    pub fn new(x: i32, y: i32, width: u32, height: u32) -> (r: Rect)
        ensures
            r == (Rect { origin: Point { x, y }, width, height }),
    {
        Rect { origin: Point { x, y }, width, height }
    }
}

impl Default for Rect {
    /// The empty rectangle at the origin.
    fn default() -> (r: Rect)
        ensures
            r == (Rect { origin: Point { x: 0, y: 0 }, width: 0, height: 0 }),
    {
        Rect { origin: Point { x: 0, y: 0 }, width: 0, height: 0 }
    }
}

impl Default for Align {
    /// Content starts at the low edge unless told otherwise.
    fn default() -> (a: Align)
        ensures
            a == Align::Start,
    {
        Align::Start
    }
}

/// How far from the low edge of an extent content of length `content` begins.
///
/// For `CenterAt(f)` the anchor is at `f / WHOLE` of the extent and half the
/// content lies on either side of it; the quotient is rounded down once. The
/// result is negative where the content reaches past the low edge.
pub open spec fn align_offset(align: Align, extent: int, content: int) -> int {
    match align {
        Align::Start => 0,
        Align::End => extent - content,
        Align::CenterAt(f) => {
            let whole = WHOLE as int;
            (2 * (f as int) * extent - whole * content) / (2 * whole)
        },
    }
}

/// Centring on the exact middle leaves half of the spare room, rounded down,
/// before the content.
pub proof fn lemma_offset_at_half(extent: int, content: int)
    ensures
        align_offset(Align::CenterAt(HALF), extent, content) == (extent - content) / 2,
{
    let spare = extent - content;
    assert(2 * (HALF as int) * extent - (WHOLE as int) * content == 1000 * spare)
        by (nonlinear_arith)
        requires
            HALF == 500,
            WHOLE == 1000,
            spare == extent - content,
    ;
    assert((1000 * spare) / 2000 == spare / 2);
}

/// The coordinate nearest to `v`.
pub open spec fn clamp_coord(v: int) -> i32 {
    if v < i32::MIN {
        i32::MIN
    } else if v > i32::MAX {
        i32::MAX
    } else {
        v as i32
    }
}

/// The extent nearest to the non-negative `v`.
pub open spec fn clamp_extent(v: int) -> u32 {
    if v > u32::MAX {
        u32::MAX
    } else {
        v as u32
    }
}

/// Computes [`align_offset`] for content that is at most [`CONTENT_LIMIT`]
/// long, which is more than any row of widgets can be.
pub fn offset_within(align: Align, extent: u32, content: u128) -> (offset: i128)
    requires
        content <= CONTENT_LIMIT,
    ensures
        offset == align_offset(align, extent as int, content as int),
        -content <= offset <= OFFSET_LIMIT,
{
    match align {
        Align::Start => 0,
        Align::End => extent as i128 - content as i128,
        Align::CenterAt(f) => {
            assert(0 <= (f as int) * (extent as int) <= 0xffff * 0xffff_ffff) by (nonlinear_arith)
                requires
                    0 <= f <= 0xffff,
                    0 <= extent <= 0xffff_ffff,
            ;
            assert(2 * (f as int) * (extent as int) == 2 * ((f as int) * (extent as int)))
                by (nonlinear_arith);
            let anchor: i128 = 2 * (f as i128 * extent as i128);
            let weight: i128 = WHOLE as i128 * content as i128;
            let twice: i128 = anchor - weight;
            let whole: i128 = 2 * WHOLE as i128;
            if twice >= 0 {
                twice / whole
            } else {
                let up: i128 = (whole - 1 - twice) / whole;
                assert(up == -((twice as int) / 2000)) by {
                    let q = (twice as int) / 2000;
                    let r = (twice as int) % 2000;
                    assert(twice == 2000 * q + r && 0 <= r < 2000);
                    assert(1999 - twice == 2000 * (-q) + (1999 - r));
                }
                -up
            }
        },
    }
}

/// Computes [`clamp_coord`].
pub fn coord_from(v: i128) -> (c: i32)
    ensures
        c == clamp_coord(v as int),
{
    if v < i32::MIN as i128 {
        i32::MIN
    } else if v > i32::MAX as i128 {
        i32::MAX
    } else {
        v as i32
    }
}

/// Computes [`clamp_extent`].
pub fn extent_from(v: u128) -> (e: u32)
    ensures
        e == clamp_extent(v as int),
{
    if v > u32::MAX as u128 {
        u32::MAX
    } else {
        v as u32
    }
}

} // verus!
