use metrics::text::pair_to_string;
use metrics::text::push_decimal;
use metrics::text::rect_to_string;
use metrics::Point2;
use metrics::Point2U;
use metrics::Rect2;
use metrics::Rect2U;
use metrics::Size2;
use metrics::Size2U;

fn decimal_of(v: i64) -> String {
    let mut out = String::new();
    push_decimal(&mut out, v);
    out
}

#[test]
fn coordinates_are_written_in_round_brackets() {
    assert_eq!(Point2(8, 5).to_string(), "Point2(8, 5)");
    assert_eq!(Point2(-8, 0).to_string(), "Point2(-8, 0)");
    assert_eq!(Point2U(8, 5).to_string(), "Point2U(8, 5)");
    assert_eq!(Size2(640, 480).to_string(), "Size2(640, 480)");
    assert_eq!(Size2U(0, 4294967295).to_string(), "Size2U(0, 4294967295)");
    assert_eq!(
        Point2(i32::MIN, i32::MAX).to_string(),
        "Point2(-2147483648, 2147483647)"
    );
}

#[test]
fn rects_are_written_as_two_corners() {
    assert_eq!(Rect2(0, 0, 10, 10).to_string(), "Rect2[(0, 0)-(10, 10)]");
    assert_eq!(Rect2(-1, -20, 300, 4).to_string(), "Rect2[(-1, -20)-(300, 4)]");
    assert_eq!(Rect2U(1, 2, 3, u32::MAX).to_string(), "Rect2U[(1, 2)-(3, 4294967295)]");
}

#[test]
fn text_agrees_with_the_debug_form_of_a_coordinate() {
    for p in [Point2(0, 0), Point2(-17, 1009), Point2(i32::MAX, i32::MIN)] {
        assert_eq!(p.to_string(), format!("{:?}", p));
    }
}

#[test]
fn decimal_form_of_numbers() {
    assert_eq!(decimal_of(0), "0");
    assert_eq!(decimal_of(7), "7");
    assert_eq!(decimal_of(10), "10");
    assert_eq!(decimal_of(-10), "-10");
    assert_eq!(decimal_of(1234567890), "1234567890");
    assert_eq!(decimal_of(-909), "-909");
    assert_eq!(decimal_of(i64::MAX), "9223372036854775807");
    assert_eq!(decimal_of(i64::MIN), "-9223372036854775808");
    for v in [-1001i64, -1, 1, 99, 100, 101, 65535, -4294967296] {
        assert_eq!(decimal_of(v), format!("{}", v));
    }
}

#[test]
fn decimal_is_appended_to_what_is_there() {
    let mut out = String::from("x = ");
    push_decimal(&mut out, -42);
    assert_eq!(out, "x = -42");
    push_decimal(&mut out, 7);
    assert_eq!(out, "x = -427");
}

#[test]
fn texts_under_a_given_name() {
    assert_eq!(pair_to_string("Vector2", 3, -2), "Vector2(3, -2)");
    assert_eq!(pair_to_string("", 0, 0), "(0, 0)");
    assert_eq!(rect_to_string("Area", 1, 2, 3, 4), "Area[(1, 2)-(3, 4)]");
}
