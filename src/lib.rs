//! Validation and exact area computation for rectangles, circles and
//! polygons on integer coordinates.

pub mod circle;
pub mod error;
pub mod point;
pub mod polygon;
pub mod rectangle;
pub mod shape;

pub use circle::Circle;
pub use error::ShapeError;
pub use point::Point;
pub use polygon::Polygon;
pub use rectangle::Rectangle;
pub use shape::{calc_area, calc_circle_area, calc_polygon_area, calc_rectangle_area, Area, Shape};
