use metrics::Coordinate2;
use metrics::Point2;
use metrics::Point2U;
use metrics::ScalarConvertible;
use metrics::Size;
use metrics::Size2;
use metrics::Size2U;

/// A stand-in for a scalar with a fraction, converted by cutting the fraction
/// off.
#[derive(Clone, Copy, Debug, PartialEq)]
struct Real(f32);

impl ScalarConvertible<i32> for Real {
    fn as_spec(self) -> i32 {
        self.0 as i32
    }

    fn _as(self) -> i32 {
        self.0 as i32
    }
}

impl ScalarConvertible<u32> for Real {
    fn as_spec(self) -> u32 {
        self.0 as u32
    }

    fn _as(self) -> u32 {
        self.0 as u32
    }
}

#[derive(Clone, Copy, Debug, PartialEq)]
struct Vector2(Real, Real);

impl Coordinate2 for Vector2 {
    type Element = Real;

    fn spec_x(&self) -> Real {
        self.0
    }

    fn spec_y(&self) -> Real {
        self.1
    }

    fn spec_new(x: Real, y: Real) -> Self {
        Vector2(x, y)
    }

    fn lemma_components_of_new(_x: Real, _y: Real) {
    }

    fn x(&self) -> Real {
        self.0
    }

    fn y(&self) -> Real {
        self.1
    }

    fn new(x: Real, y: Real) -> Self {
        Vector2(x, y)
    }
}

#[test]
fn scalar_ops() {
    assert_eq!(Point2(0, 3) * 4, Point2(0, 12));
    assert_eq!(Size2(3, 2) * -2, Size2(3 * -2, 2 * -2));
    assert_eq!(metrics::Rect2U(2, 4, 6, 8) / 2, metrics::Rect2U(1, 2, 3, 4));
}

#[test]
fn components_round_trip() {
    assert_eq!(Point2::new(8, 5).x(), 8);
    assert_eq!(Point2::new(8, 5).y(), 5);
    assert_eq!(Point2U::new(u32::MAX, 0).x(), u32::MAX);
    assert_eq!(Point2U::new(u32::MAX, 0).y(), 0);
    assert_eq!(Size2::new(i32::MIN, i32::MAX).x(), i32::MIN);
    assert_eq!(Size2::new(i32::MIN, i32::MAX).y(), i32::MAX);
    assert_eq!(Size2U::new(3, 4).x(), 3);
    assert_eq!(Size2U::new(3, 4).y(), 4);
    assert_eq!(Point2::new(8, 5), Point2(8, 5));
}

#[test]
fn accessors_read_the_fields() {
    let p2 = Point2(8, 5);
    assert_eq!(p2.x(), 8);
    assert_eq!(p2.y(), 5);
}

#[test]
fn zero_has_zero_components() {
    assert_eq!(Point2::zero(), Point2(0, 0));
    assert_eq!(Point2U::zero(), Point2U(0, 0));
    assert_eq!(Size2::zero(), Size2(0, 0));
    assert_eq!(Size2U::zero(), Size2U(0, 0));
}

#[test]
fn size_reads_width_and_height() {
    let s2 = Size2(8, 6);
    assert_eq!(s2.width(), s2.x());
    assert_eq!(s2.height(), s2.y());
    assert_eq!(s2.width(), 8);
    assert_eq!(s2.height(), 6);
}

#[test]
fn size_shrinks_and_expands() {
    let s2 = Size2(8, 6);
    assert_eq!(s2.expand(2, 3), Size2(8 + 2, 6 + 3));
    assert_eq!(s2.shrink(2, 3), Size2(8 - 2, 6 - 3));
    assert_eq!(s2.shrink(2, 3), Size2(6, 3));
    assert_eq!(Size2U(8, 6).shrink(8, 6), Size2U(0, 0));
    assert_eq!(Size2U(8, 6).expand(1, 2), Size2U(9, 8));
    assert_eq!(Size2(1, 1).shrink(2, 3), Size2(-1, -2));
}

#[test]
fn multiplication_is_by_component() {
    assert_eq!(Point2(-3, 7) * -2, Point2(6, -14));
    assert_eq!(Point2U(3, 7) * 2, Point2U(6, 14));
    assert_eq!(Size2U(3, 7) * 0, Size2U(0, 0));
}

#[test]
fn division_rounds_toward_zero() {
    assert_eq!(Point2(-7, 7) / 2, Point2(-3, 3));
    assert_eq!(Point2(-7, 7) / -2, Point2(3, -3));
    assert_eq!(Size2(9, -9) / 4, Size2(2, -2));
    assert_eq!(Point2U(7, 8) / 2, Point2U(3, 4));
    assert_eq!(Size2U(1, 0) / 3, Size2U(0, 0));
}

#[test]
fn adding_converts_the_other_operand() {
    assert_eq!(Point2(8, 5) + Vector2(Real(1.5), Real(1.5)), Point2(9, 6));
    assert_eq!(Point2(8, 5) + Vector2(Real(-1.5), Real(-0.9)), Point2(7, 5));
    assert_eq!(Point2(8, 5) - Vector2(Real(1.5), Real(2.9)), Point2(7, 3));
    assert_eq!(Point2U(8, 5) + Vector2(Real(1.5), Real(1.5)), Point2U(9, 6));
    assert_eq!(Point2(8, 5) + Point2U(1, 2), Point2(9, 7));
    assert_eq!(Point2(8, 5) + Size2(-8, -5), Point2(0, 0));
    assert_eq!(Point2(0, 0) + Point2U(u32::MAX, 0), Point2(-1, 0));
    assert_eq!(Point2U(8, 5) - Size2(3, 5), Point2U(5, 0));
    assert_eq!(Size2(8, 5) - Size2U(9, 5), Size2(-1, 0));
    assert_eq!(Size2U(1, 2) + Point2U(3, 4), Size2U(4, 6));
}

#[test]
fn conversion_between_kinds_is_by_component() {
    assert_eq!(Point2::from(Point2U(u32::MAX, 7)), Point2(-1, 7));
    assert_eq!(Point2U::from(Point2(-1, 7)), Point2U(u32::MAX, 7));
    assert_eq!(Size2::from(Size2U(2147483648, 0)), Size2(i32::MIN, 0));
    assert_eq!(Size2U::from(Size2(i32::MIN, 3)), Size2U(2147483648, 3));
    let p: Point2 = Point2U(1, 2).into();
    assert_eq!(p, Point2(1, 2));
}
