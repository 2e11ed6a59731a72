use vstd::prelude::*;

use crate::error::ShapeError;
use crate::point::Point;

verus! {

/// A circle given by its center and radius.
#[derive(Clone, Copy, Debug, PartialEq, Eq, Structural)]
pub struct Circle {
    pub center: Point,
    pub radius: i32,
}

impl Circle {
    /// A circle is accepted when its radius is positive.
    pub open spec fn spec_is_valid(self) -> bool {
        self.radius > 0
    }

    /// The area divided by π: the square of the radius.
    pub open spec fn spec_area_over_pi(self) -> int {
        self.radius * self.radius
    }

    /// Accepts a circle with a positive radius.
    pub fn is_valid(&self) -> (r: Result<bool, ShapeError>)
        ensures
            r == (if self.spec_is_valid() {
                Ok::<bool, ShapeError>(true)
            } else {
                Err(ShapeError::InvalidCircle)
            }),
    {
        if self.radius > 0 {
            Ok(true)
        } else {
            Err(ShapeError::InvalidCircle)
        }
    }

    /// The square of the radius; the area is π times this.
    pub fn area_over_pi(&self) -> (r: u64)
        ensures
            r as int == self.spec_area_over_pi(),
    {
        let r: i64 = self.radius as i64;
        assert(0 <= r * r <= 0x4000_0000_0000_0000) by (nonlinear_arith)
            requires
                -0x8000_0000 <= r <= 0x7fff_ffff,
        ;
        (r * r) as u64
    }
}

} // verus!
