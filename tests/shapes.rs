use shape_area::{
    calc_area, calc_circle_area, calc_polygon_area, calc_rectangle_area, Area, Circle, Point,
    Polygon, Rectangle, Shape, ShapeError,
};

fn rect(x1: i32, y1: i32, x2: i32, y2: i32) -> Rectangle {
    Rectangle { top_left: Point::new(x1, y1), bottom_right: Point::new(x2, y2) }
}

fn poly(pts: &[(i32, i32)]) -> Polygon {
    Polygon { points: pts.iter().map(|&(x, y)| Point::new(x, y)).collect() }
}

#[test]
fn rectangle_ordered_corners() {
    assert_eq!(calc_rectangle_area(rect(0, 0, 4, 3)), Ok(Area::Whole(12)));
}

#[test]
fn rectangle_reversed_corners_is_normalized() {
    assert_eq!(calc_rectangle_area(rect(4, 3, 0, 0)), Ok(Area::Whole(12)));
}

#[test]
fn rectangle_mixed_corners() {
    assert_eq!(calc_rectangle_area(rect(0, 3, 4, 0)), Ok(Area::Whole(12)));
    assert_eq!(calc_rectangle_area(rect(-2, -1, 3, 4)), Ok(Area::Whole(25)));
}

#[test]
fn rectangle_normalize_orders_corners() {
    let n = rect(4, 0, 0, 3).normalize();
    assert_eq!(n, rect(0, 0, 4, 3));
    assert_eq!(n.length(), 4);
    assert_eq!(n.height(), 3);
    assert_eq!(rect(4, 0, 0, 3).area(), n.area());
}

#[test]
fn rectangle_point_is_invalid() {
    assert_eq!(calc_rectangle_area(rect(5, 5, 5, 5)), Err(ShapeError::InvalidRectangle));
}

#[test]
fn rectangle_flat_is_accepted_with_zero_area() {
    assert_eq!(calc_rectangle_area(rect(0, 0, 0, 7)), Ok(Area::Whole(0)));
    assert_eq!(calc_rectangle_area(rect(0, 0, 7, 0)), Ok(Area::Whole(0)));
}

#[test]
fn rectangle_largest_extent() {
    let r = rect(i32::MIN, i32::MIN, i32::MAX, i32::MAX);
    assert_eq!(r.length(), u32::MAX as u64);
    assert_eq!(calc_rectangle_area(r), Ok(Area::Whole((u32::MAX as u64) * (u32::MAX as u64))));
}

#[test]
fn circle_radius_two() {
    let c = Circle { center: Point::new(0, 0), radius: 2 };
    assert_eq!(calc_circle_area(c), Ok(Area::PiTimes(4)));
    let value = std::f64::consts::PI * 4.0;
    assert!((value - 12.566).abs() < 0.001);
}

#[test]
fn circle_zero_radius_is_invalid() {
    let c = Circle { center: Point::new(0, 0), radius: 0 };
    assert_eq!(calc_circle_area(c), Err(ShapeError::InvalidCircle));
}

#[test]
fn circle_negative_radius_is_invalid() {
    let c = Circle { center: Point::new(3, -3), radius: i32::MIN };
    assert_eq!(calc_circle_area(c), Err(ShapeError::InvalidCircle));
}

#[test]
fn circle_largest_radius() {
    let c = Circle { center: Point::new(1, 1), radius: i32::MAX };
    let r = i32::MAX as u64;
    assert_eq!(calc_circle_area(c), Ok(Area::PiTimes(r * r)));
}

#[test]
fn polygon_triangle_is_invalid() {
    assert_eq!(calc_polygon_area(poly(&[(0, 0), (4, 0), (0, 4)])), Err(ShapeError::InvalidPolygon));
}

#[test]
fn polygon_empty_is_invalid() {
    assert_eq!(calc_polygon_area(poly(&[])), Err(ShapeError::InvalidPolygon));
}

#[test]
fn polygon_square() {
    let p = poly(&[(0, 0), (4, 0), (4, 4), (0, 4)]);
    assert_eq!(p.doubled_area(), 32);
    assert_eq!(calc_polygon_area(p), Ok(Area::Halves(32)));
}

#[test]
fn polygon_odd_doubled_area() {
    let p = poly(&[(0, 0), (1, 0), (1, 1), (0, 2), (-1, 1)]);
    assert_eq!(calc_polygon_area(p), Ok(Area::Halves(5)));
}

#[test]
fn polygon_rotation_keeps_area() {
    let pts = [(0, 0), (5, 0), (6, 3), (2, 5), (-1, 2)];
    let expected = poly(&pts).doubled_area();
    for k in 0..pts.len() {
        let mut rotated = pts.to_vec();
        rotated.rotate_left(k);
        assert_eq!(poly(&rotated).doubled_area(), expected);
    }
}

#[test]
fn polygon_reversal_keeps_area() {
    let pts = [(0, 0), (5, 0), (6, 3), (2, 5), (-1, 2)];
    let mut rev = pts.to_vec();
    rev.reverse();
    assert_eq!(poly(&rev).doubled_area(), poly(&pts).doubled_area());
    assert_eq!(poly(&rev).doubled_area(), 48);
}

#[test]
fn polygon_extreme_coordinates() {
    let p = poly(&[(i32::MIN, i32::MIN), (i32::MAX, i32::MIN), (i32::MAX, i32::MAX), (i32::MIN, i32::MAX)]);
    let side = u32::MAX as u128;
    assert_eq!(calc_polygon_area(p), Ok(Area::Halves(2 * side * side)));
}

#[test]
fn calc_area_dispatch_and_repeat() {
    let shapes = [
        Shape::Rectangle(rect(0, 0, 4, 3)),
        Shape::Circle(Circle { center: Point::new(0, 0), radius: 0 }),
        Shape::Polygon(poly(&[(0, 0), (4, 0), (4, 4), (0, 4)])),
    ];
    let expected = [
        Ok(Area::Whole(12)),
        Err(ShapeError::InvalidCircle),
        Ok(Area::Halves(32)),
    ];
    for (s, e) in shapes.iter().zip(expected.iter()) {
        assert_eq!(calc_area(s), *e);
        assert_eq!(calc_area(s), calc_area(s));
    }
}

#[test]
fn shape_validity() {
    assert_eq!(Shape::Rectangle(rect(1, 1, 1, 1)).is_valid(), Err(ShapeError::InvalidRectangle));
    assert_eq!(Shape::Polygon(poly(&[(0, 0); 4])).is_valid(), Ok(true));
    assert_eq!(Shape::Polygon(poly(&[(0, 0); 4])).area(), Area::Halves(0));
}

#[test]
fn error_messages() {
    assert_eq!(ShapeError::InvalidRectangle.message(), "invalid rectangle");
    assert_eq!(ShapeError::InvalidCircle.message(), "invalid circle");
    assert_eq!(ShapeError::InvalidPolygon.message(), "invalid polygon");
    assert_eq!(ShapeError::InvalidShape.message(), "the shape object is invalid");
}
