//! Points, sizes and rectangles on an integer pixel grid.
//!
//! A rectangle is stored as its top-left corner together with its size.
//! Coordinates grow to the right and downwards, so the vertical "near" edge is
//! the top. A rectangle with zero width or height is a valid, empty rectangle;
//! its inclusive far edge is defined to coincide with its near edge.

use vstd::prelude::*;

verus! {

/// A pixel position. `x` grows to the right, `y` grows downwards.
#[derive(Clone, Copy, PartialEq, Eq, Structural, Debug)]
pub struct Point {
    /// Horizontal coordinate.
    pub x: i32,
    /// Vertical coordinate.
    pub y: i32,
}

/// The extent of a rectangle. Both components may be zero.
#[derive(Clone, Copy, PartialEq, Eq, Structural, Debug)]
pub struct Size {
    /// Horizontal extent in pixels.
    pub width: u32,
    /// Vertical extent in pixels.
    pub height: u32,
}

/// An axis-aligned rectangle given by its top-left corner and its size.
#[derive(Clone, Copy, PartialEq, Eq, Structural, Debug)]
pub struct Rect {
    /// The corner with the smallest coordinates.
    pub top_left: Point,
    /// The extent of the rectangle.
    pub size: Size,
}

/// The inclusive far edge of a span that starts at `near` and is `size`
/// pixels long. An empty span has its far edge at its near edge.
pub open spec fn far_edge(near: int, size: int) -> int {
    if size == 0 {
        near
    } else {
        near + size - 1
    }
}

impl Point {
    /// Build a point from its two coordinates.
    pub fn new(x: i32, y: i32) -> (r: Point)
        ensures
            r.x == x,
            r.y == y,
    {
        Point { x, y }
    }

    /// The origin.
    pub fn zero() -> (r: Point)
        ensures
            r.x == 0,
            r.y == 0,
    {
        Point { x: 0, y: 0 }
    }
}

impl Size {
    /// Build a size from its two extents.
    pub fn new(width: u32, height: u32) -> (r: Size)
        ensures
            r.width == width,
            r.height == height,
    {
        Size { width, height }
    }

    /// The empty size.
    pub fn zero() -> (r: Size)
        ensures
            r.width == 0,
            r.height == 0,
    {
        Size { width: 0, height: 0 }
    }
}

impl Rect {
    /// The horizontal coordinate of the left (near) edge.
    pub open spec fn left(self) -> int {
        self.top_left.x as int
    }

    /// The vertical coordinate of the top (near) edge.
    pub open spec fn top(self) -> int {
        self.top_left.y as int
    }

    /// The width as a mathematical integer.
    pub open spec fn width(self) -> int {
        self.size.width as int
    }

    /// The height as a mathematical integer.
    pub open spec fn height(self) -> int {
        self.size.height as int
    }

    /// The horizontal coordinate of the inclusive right (far) edge.
    pub open spec fn right(self) -> int {
        far_edge(self.left(), self.width())
    }

    /// The vertical coordinate of the inclusive bottom (far) edge.
    pub open spec fn bottom(self) -> int {
        far_edge(self.top(), self.height())
    }

    /// The horizontal coordinate of the center pixel, defined as
    /// `left + width / 2`. On even widths no pixel sits exactly in the
    /// middle, so centering is asymmetric by one pixel; this is a documented
    /// imprecision of integer pixel coordinates, not an error.
    pub open spec fn center_x(self) -> int {
        self.left() + self.width() / 2
    }

    /// The vertical coordinate of the center pixel, defined as
    /// `top + height / 2`; see [`Rect::center_x`] for the convention.
    pub open spec fn center_y(self) -> int {
        self.top() + self.height() / 2
    }

    /// Build a rectangle from its top-left corner and its size.
    pub fn new(top_left: Point, size: Size) -> (r: Rect)
        ensures
            r.top_left == top_left,
            r.size == size,
    {
        Rect { top_left, size }
    }

    /// The empty rectangle at the origin.
    pub fn zero() -> (r: Rect)
        ensures
            r.top_left.x == 0,
            r.top_left.y == 0,
            r.size.width == 0,
            r.size.height == 0,
    {
        Rect { top_left: Point { x: 0, y: 0 }, size: Size { width: 0, height: 0 } }
    }

    /// Build the rectangle that spans `top_left` to `bottom_right`, both
    /// corners inclusive.
    pub fn with_corners(top_left: Point, bottom_right: Point) -> (r: Rect)
        requires
            top_left.x <= bottom_right.x + 1,
            top_left.y <= bottom_right.y + 1,
            bottom_right.x - top_left.x + 1 <= u32::MAX,
            bottom_right.y - top_left.y + 1 <= u32::MAX,
        ensures
            r.top_left == top_left,
            r.width() == bottom_right.x - top_left.x + 1,
            r.height() == bottom_right.y - top_left.y + 1,
    {
        let width = (bottom_right.x as i64 - top_left.x as i64 + 1) as u32;
        let height = (bottom_right.y as i64 - top_left.y as i64 + 1) as u32;
        Rect { top_left, size: Size { width, height } }
    }

    /// The inclusive far corner. The far edge of an empty axis coincides
    /// with the near edge.
    pub fn bottom_right(&self) -> (p: Point)
        requires
            self.right() <= i32::MAX,
            self.bottom() <= i32::MAX,
        ensures
            p.x == self.right(),
            p.y == self.bottom(),
    {
        let x = if self.size.width == 0 {
            self.top_left.x as i64
        } else {
            self.top_left.x as i64 + self.size.width as i64 - 1
        };
        let y = if self.size.height == 0 {
            self.top_left.y as i64
        } else {
            self.top_left.y as i64 + self.size.height as i64 - 1
        };
        Point { x: x as i32, y: y as i32 }
    }

    /// The center pixel, as defined by [`Rect::center_x`] and
    /// [`Rect::center_y`].
    pub fn center(&self) -> (p: Point)
        requires
            self.center_x() <= i32::MAX,
            self.center_y() <= i32::MAX,
        ensures
            p.x == self.center_x(),
            p.y == self.center_y(),
    {
        let x = self.top_left.x as i64 + (self.size.width / 2) as i64;
        let y = self.top_left.y as i64 + (self.size.height / 2) as i64;
        Point { x: x as i32, y: y as i32 }
    }

    /// Move the rectangle by the given vector, keeping its size.
    pub fn translate(&self, by: Point) -> (r: Rect)
        requires
            i32::MIN <= self.left() + by.x <= i32::MAX,
            i32::MIN <= self.top() + by.y <= i32::MAX,
        ensures
            r.top_left.x == self.left() + by.x,
            r.top_left.y == self.top() + by.y,
            r.size == self.size,
    {
        Rect {
            top_left: Point { x: self.top_left.x + by.x, y: self.top_left.y + by.y },
            size: self.size,
        }
    }

    /// The smallest rectangle that contains both `self` and `other`.
    ///
    /// Empty rectangles take part with their far edge at their near edge, so
    /// the result is never smaller than one pixel on either axis.
    pub fn enveloping(&self, other: &Rect) -> (r: Rect)
        requires
            max_int(self.right(), other.right()) - min_int(self.left(), other.left()) + 1
                <= u32::MAX,
            max_int(self.bottom(), other.bottom()) - min_int(self.top(), other.top()) + 1
                <= u32::MAX,
        ensures
            r.left() == min_int(self.left(), other.left()),
            r.top() == min_int(self.top(), other.top()),
            r.right() == max_int(self.right(), other.right()),
            r.bottom() == max_int(self.bottom(), other.bottom()),
            r.width() == r.right() - r.left() + 1,
            r.height() == r.bottom() - r.top() + 1,
    {
        let left = if self.top_left.x <= other.top_left.x {
            self.top_left.x
        } else {
            other.top_left.x
        };
        let top = if self.top_left.y <= other.top_left.y {
            self.top_left.y
        } else {
            other.top_left.y
        };
        let self_far = self.bottom_right_wide();
        let other_far = other.bottom_right_wide();
        let right = if self_far.0 >= other_far.0 {
            self_far.0
        } else {
            other_far.0
        };
        let bottom = if self_far.1 >= other_far.1 {
            self_far.1
        } else {
            other_far.1
        };
        let width = (right - left as i64 + 1) as u32;
        let height = (bottom - top as i64 + 1) as u32;
        Rect { top_left: Point { x: left, y: top }, size: Size { width, height } }
    }

    /// The inclusive far corner as a pair of wide integers; unlike
    /// [`Rect::bottom_right`] this cannot overflow.
    fn bottom_right_wide(&self) -> (p: (i64, i64))
        ensures
            p.0 == self.right(),
            p.1 == self.bottom(),
    {
        let x = if self.size.width == 0 {
            self.top_left.x as i64
        } else {
            self.top_left.x as i64 + self.size.width as i64 - 1
        };
        let y = if self.size.height == 0 {
            self.top_left.y as i64
        } else {
            self.top_left.y as i64 + self.size.height as i64 - 1
        };
        (x, y)
    }
}

/// The smaller of two integers.
pub open spec fn min_int(a: int, b: int) -> int {
    if a <= b {
        a
    } else {
        b
    }
}

/// The larger of two integers.
pub open spec fn max_int(a: int, b: int) -> int {
    if a >= b {
        a
    } else {
        b
    }
}

} // verus!
