use vstd::prelude::*;

verus! {

/// Why a shape was rejected.
#[derive(Clone, Copy, Debug, PartialEq, Eq, Structural)]
pub enum ShapeError {
    /// Both the length and the height of the rectangle are zero.
    InvalidRectangle,
    /// The radius of the circle is not positive.
    InvalidCircle,
    /// The polygon has too few points.
    InvalidPolygon,
    /// The validity check failed without naming a reason.
    InvalidShape,
}

impl ShapeError {
    /// The text shown to a user for this error.
    pub open spec fn spec_message(self) -> Seq<char> {
        match self {
            ShapeError::InvalidRectangle => "invalid rectangle"@,
            ShapeError::InvalidCircle => "invalid circle"@,
            ShapeError::InvalidPolygon => "invalid polygon"@,
            ShapeError::InvalidShape => "the shape object is invalid"@,
        }
    }

    /// Human-readable description of the error.
    pub fn message(&self) -> (r: String)
        ensures
            r@ == self.spec_message(),
    {
        match self {
            ShapeError::InvalidRectangle => "invalid rectangle".to_owned(),
            ShapeError::InvalidCircle => "invalid circle".to_owned(),
            ShapeError::InvalidPolygon => "invalid polygon".to_owned(),
            ShapeError::InvalidShape => "the shape object is invalid".to_owned(),
        }
    }
}

} // verus!
