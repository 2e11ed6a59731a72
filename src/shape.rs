use vstd::prelude::*;

use crate::circle::Circle;
use crate::error::ShapeError;
use crate::polygon::{doubled_area, Polygon};
use crate::rectangle::Rectangle;

verus! {

/// An exact area, in one of the three forms the shapes produce.
#[derive(Clone, Copy, Debug, PartialEq, Eq, Structural)]
pub enum Area {
    /// A whole number of square units.
    Whole(u64),
    /// Half the given number of square units.
    Halves(u128),
    /// π times the given number of square units.
    PiTimes(u64),
}

/// One of the shapes whose area can be computed.
#[derive(Debug)]
pub enum Shape {
    Rectangle(Rectangle),
    Circle(Circle),
    Polygon(Polygon),
}

/// The outcome of a validity check on `s`.
pub open spec fn spec_validity(s: Shape) -> Result<bool, ShapeError> {
    match s {
        Shape::Rectangle(r) => if r.spec_is_valid() {
            Ok(true)
        } else {
            Err(ShapeError::InvalidRectangle)
        },
        Shape::Circle(c) => if c.spec_is_valid() {
            Ok(true)
        } else {
            Err(ShapeError::InvalidCircle)
        },
        Shape::Polygon(p) => if p.spec_is_valid() {
            Ok(true)
        } else {
            Err(ShapeError::InvalidPolygon)
        },
    }
}

/// The exact area of `s`.
pub open spec fn spec_area(s: Shape) -> Area {
    match s {
        Shape::Rectangle(r) => Area::Whole(r.spec_area() as u64),
        Shape::Circle(c) => Area::PiTimes(c.spec_area_over_pi() as u64),
        Shape::Polygon(p) => Area::Halves(doubled_area(p.points@) as u128),
    }
}

/// What computing the area of `s` returns, given the outcome `v` of its
/// validity check and its area `a`.
pub open spec fn area_result(v: Result<bool, ShapeError>, a: Area) -> Result<Area, ShapeError> {
    match v {
        Err(e) => Err(e),
        Ok(true) => Ok(a),
        Ok(false) => Err(ShapeError::InvalidShape),
    }
}

impl Shape {
    /// Checks the rule of the shape's kind.
    pub fn is_valid(&self) -> (r: Result<bool, ShapeError>)
        ensures
            r == spec_validity(*self),
    {
        match self {
            Shape::Rectangle(r) => r.is_valid(),
            Shape::Circle(c) => c.is_valid(),
            Shape::Polygon(p) => p.is_valid(),
        }
    }

    /// The exact area of the shape, valid or not.
    pub fn area(&self) -> (r: Area)
        ensures
            r == spec_area(*self),
    {
        match self {
            Shape::Rectangle(r) => Area::Whole(r.area()),
            Shape::Circle(c) => Area::PiTimes(c.area_over_pi()),
            Shape::Polygon(p) => Area::Halves(p.doubled_area()),
        }
    }
}

/// Validates `target` and, when it passes, returns its area.
pub fn calc_area(target: &Shape) -> (r: Result<Area, ShapeError>)
    ensures
        r == area_result(spec_validity(*target), spec_area(*target)),
{
    match target.is_valid() {
        Err(e) => Err(e),
        Ok(true) => Ok(target.area()),
        Ok(false) => Err(ShapeError::InvalidShape),
    }
}

/// Area of a rectangle whose corners may come in any order.
pub fn calc_rectangle_area(shape: Rectangle) -> (r: Result<Area, ShapeError>)
    ensures
        shape.spec_is_valid() ==> r == Ok::<Area, ShapeError>(
            Area::Whole(shape.spec_area() as u64),
        ),
        !shape.spec_is_valid() ==> r == Err::<Area, ShapeError>(ShapeError::InvalidRectangle),
{
    calc_area(&Shape::Rectangle(shape))
}

/// Area of a circle, as a multiple of π: `π * radius * radius` for a positive
/// radius, and an error otherwise.
pub fn calc_circle_area(shape: Circle) -> (r: Result<Area, ShapeError>)
    ensures
        shape.radius > 0 ==> r == Ok::<Area, ShapeError>(
            Area::PiTimes((shape.radius * shape.radius) as u64),
        ),
        shape.radius <= 0 ==> r == Err::<Area, ShapeError>(ShapeError::InvalidCircle),
{
    calc_area(&Shape::Circle(shape))
}

/// Area of a polygon with more than three points, in halves of a square unit.
pub fn calc_polygon_area(shape: Polygon) -> (r: Result<Area, ShapeError>)
    ensures
        shape.spec_is_valid() ==> r == Ok::<Area, ShapeError>(
            Area::Halves(doubled_area(shape.points@) as u128),
        ),
        !shape.spec_is_valid() ==> r == Err::<Area, ShapeError>(ShapeError::InvalidPolygon),
{
    calc_area(&Shape::Polygon(shape))
}

/// Computing an area depends on the shape alone: two equal shapes give the
/// same result, so asking twice gives the same answer.
pub proof fn lemma_calc_area_deterministic(a: Shape, b: Shape)
    requires
        a == b,
    ensures
        area_result(spec_validity(a), spec_area(a)) == area_result(
            spec_validity(b),
            spec_area(b),
        ),
{
}

} // verus!
