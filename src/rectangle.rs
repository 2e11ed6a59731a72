use vstd::prelude::*;

use crate::error::ShapeError;
use crate::point::Point;

verus! {

/// The smaller of two integers.
pub open spec fn min_of(a: int, b: int) -> int {
    if a <= b {
        a
    } else {
        b
    }
}

/// The larger of two integers.
pub open spec fn max_of(a: int, b: int) -> int {
    if a <= b {
        b
    } else {
        a
    }
}

/// The absolute value of an integer.
pub open spec fn abs(a: int) -> int {
    if a < 0 {
        -a
    } else {
        a
    }
}

/// An axis-aligned rectangle given by two opposite corners, in any order.
#[derive(Clone, Copy, Debug, PartialEq, Eq, Structural)]
pub struct Rectangle {
    pub top_left: Point,
    pub bottom_right: Point,
}

impl Rectangle {
    /// Extent along the x axis.
    pub open spec fn spec_length(self) -> int {
        abs(self.bottom_right.x - self.top_left.x)
    }

    /// Extent along the y axis.
    pub open spec fn spec_height(self) -> int {
        abs(self.bottom_right.y - self.top_left.y)
    }

    /// Area of the rectangle.
    pub open spec fn spec_area(self) -> int {
        self.spec_length() * self.spec_height()
    }

    /// The same rectangle with its corners reordered.
    pub open spec fn spec_normalize(self) -> Rectangle {
        Rectangle {
            top_left: Point {
                x: min_of(self.top_left.x as int, self.bottom_right.x as int) as i32,
                y: min_of(self.top_left.y as int, self.bottom_right.y as int) as i32,
            },
            bottom_right: Point {
                x: max_of(self.top_left.x as int, self.bottom_right.x as int) as i32,
                y: max_of(self.top_left.y as int, self.bottom_right.y as int) as i32,
            },
        }
    }

    /// A rectangle is accepted when it has some extent along either axis.
    pub open spec fn spec_is_valid(self) -> bool {
        self.spec_length() > 0 || self.spec_height() > 0
    }

    /// The same rectangle, with `top_left` holding the smaller coordinates
    /// and `bottom_right` the larger ones.
    pub fn normalize(&self) -> (r: Rectangle)
        ensures
            r == self.spec_normalize(),
            r.top_left.x <= r.bottom_right.x,
            r.top_left.y <= r.bottom_right.y,
    {
        let (x1, x2) = if self.top_left.x <= self.bottom_right.x {
            (self.top_left.x, self.bottom_right.x)
        } else {
            (self.bottom_right.x, self.top_left.x)
        };
        let (y1, y2) = if self.top_left.y <= self.bottom_right.y {
            (self.top_left.y, self.bottom_right.y)
        } else {
            (self.bottom_right.y, self.top_left.y)
        };
        Rectangle { top_left: Point { x: x1, y: y1 }, bottom_right: Point { x: x2, y: y2 } }
    }

    /// Extent along the x axis.
    pub fn length(&self) -> (r: u64)
        ensures
            r as int == self.spec_length(),
    {
        let d: i64 = (self.bottom_right.x as i64) - (self.top_left.x as i64);
        if d < 0 {
            (-d) as u64
        } else {
            d as u64
        }
    }

    /// Extent along the y axis.
    pub fn height(&self) -> (r: u64)
        ensures
            r as int == self.spec_height(),
    {
        let d: i64 = (self.bottom_right.y as i64) - (self.top_left.y as i64);
        if d < 0 {
            (-d) as u64
        } else {
            d as u64
        }
    }

    /// Accepts a rectangle with a positive length or a positive height.
    pub fn is_valid(&self) -> (r: Result<bool, ShapeError>)
        ensures
            r == (if self.spec_is_valid() {
                Ok::<bool, ShapeError>(true)
            } else {
                Err(ShapeError::InvalidRectangle)
            }),
    {
        let normalized = self.normalize();
        proof {
            lemma_normalize_keeps_extent(*self);
        }
        let length = normalized.length();
        let height = normalized.height();
        if length > 0 || height > 0 {
            Ok(true)
        } else {
            Err(ShapeError::InvalidRectangle)
        }
    }

    /// Length times height.
    pub fn area(&self) -> (r: u64)
        ensures
            r as int == self.spec_area(),
    {
        let normalized = self.normalize();
        proof {
            lemma_normalize_keeps_extent(*self);
        }
        let length = normalized.length();
        let height = normalized.height();
        assert(length * height <= 0xffff_ffff * 0xffff_ffff) by (nonlinear_arith)
            requires
                length <= 0xffff_ffff,
                height <= 0xffff_ffff,
        ;
        length * height
    }
}

/// Reordering the corners changes neither the length nor the height.
pub proof fn lemma_normalize_keeps_extent(r: Rectangle)
    ensures
        r.spec_normalize().spec_length() == r.spec_length(),
        r.spec_normalize().spec_height() == r.spec_height(),
        r.spec_length() <= 0xffff_ffff,
        r.spec_height() <= 0xffff_ffff,
{
}

/// Normalizing a rectangle keeps its area, whatever order its corners were in.
pub proof fn lemma_normalize_keeps_area(r: Rectangle)
    ensures
        r.spec_normalize().spec_area() == r.spec_area(),
{
    lemma_normalize_keeps_extent(r);
}

} // verus!
