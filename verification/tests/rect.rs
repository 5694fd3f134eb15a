use metrics::Point2;
use metrics::Point2U;
use metrics::Rect2;
use metrics::Rect2T;
use metrics::Rect2U;
use metrics::Size2;
use metrics::Size2U;

#[test]
fn edges_round_trip() {
    let r = Rect2::new(1, 2, 3, 4);
    assert_eq!(r, Rect2(1, 2, 3, 4));
    assert_eq!(r.left(), 1);
    assert_eq!(r.top(), 2);
    assert_eq!(r.right(), 3);
    assert_eq!(r.bottom(), 4);
    assert_eq!(r.x(), 1);
    assert_eq!(r.y(), 2);
    let u = Rect2U::new(5, 6, 7, 8);
    assert_eq!((u.left(), u.top(), u.right(), u.bottom()), (5, 6, 7, 8));
    assert_eq!((u.x(), u.y()), (5, 6));
}

#[test]
fn size_and_offset_come_from_the_edges() {
    let r = Rect2(2, 4, 12, 9);
    assert_eq!(r.size(), Size2(10, 5));
    assert_eq!(r.size(), Size2::from(Size2U(12 - 2, 9 - 4)));
    assert_eq!(r.offset(), Point2(2, 4));
    let u = Rect2U(2, 4, 12, 9);
    assert_eq!(u.size(), Size2U(10, 5));
    assert_eq!(u.offset(), Point2U(2, 4));
}

#[test]
fn inverted_rect_has_negative_size() {
    let r = Rect2(10, 10, 0, 5);
    assert_eq!(r.size(), Size2(-10, -5));
    assert_eq!(r.offset(), Point2(10, 10));
}

#[test]
fn corners_pair_the_edges() {
    let r = Rect2(1, 2, 3, 4);
    assert_eq!(r.lt(), Point2(1, 2));
    assert_eq!(r.rt(), Point2(3, 2));
    assert_eq!(r.lb(), Point2(1, 4));
    assert_eq!(r.rb(), Point2(3, 4));
    let u = Rect2U(1, 2, 3, 4);
    assert_eq!(u.lt(), Point2U(1, 2));
    assert_eq!(u.rt(), Point2U(3, 2));
    assert_eq!(u.lb(), Point2U(1, 4));
    assert_eq!(u.rb(), Point2U(3, 4));
}

#[test]
fn extend_moves_every_edge() {
    let r = Rect2(0, 0, 10, 10);
    let e = r.extend(2);
    assert_eq!(e, Rect2(-2, -2, 12, 12));
    assert_eq!(e.left(), r.left() - 2);
    assert_eq!(e.top(), r.top() - 2);
    assert_eq!(e.right(), r.right() + 2);
    assert_eq!(e.bottom(), r.bottom() + 2);
    assert_eq!(Rect2U(5, 5, 6, 6).extend(5), Rect2U(0, 0, 11, 11));
    assert_eq!(Rect2U(5, 5, 6, 6).extend(0), Rect2U(5, 5, 6, 6));
}

#[test]
fn extend_and_back_is_the_same_rect() {
    let r = Rect2(-3, 4, 10, 20);
    assert_eq!(r.extend(7).extend(-7), r);
    assert_eq!(r.extend(-7).extend(7), r);
    assert_eq!(r.extend(0), r);
    let wide = Rect2(i32::MIN + 5, i32::MIN + 5, i32::MAX - 5, i32::MAX - 5);
    assert_eq!(wide.extend(5).extend(-5), wide);
}

#[test]
fn extend_inward_may_invert_the_edges() {
    assert_eq!(Rect2(0, 0, 2, 2).extend(-2), Rect2(2, 2, 0, 0));
    assert_eq!(Rect2(0, 0, 2, 4).extend(-3), Rect2(3, 3, -1, 1));
}

#[test]
fn rect_from_offset_and_size() {
    assert_eq!(Rect2::from_offset_and_size(Point2(1, 2), Size2(3, 4)), Rect2(1, 2, 4, 6));
    assert_eq!(Rect2::from_offset_and_size(Point2U(1, 2), Size2U(3, 4)), Rect2(1, 2, 4, 6));
    assert_eq!(Rect2::from_offset_and_size(Point2(-1, -2), Size2U(3, 4)), Rect2(-1, -2, 2, 2));
    assert_eq!(Rect2U::from_offset_and_size(Point2(1, 2), Size2(3, 4)), Rect2U(1, 2, 4, 6));
    assert_eq!(Rect2::from_offset_and_size(Point2(5, 5), Size2(-5, -6)), Rect2(5, 5, 0, -1));
}

#[test]
fn rect_from_parts() {
    assert_eq!(Rect2::from_parts(Point2(1, 2), Size2(3, 4)), Rect2(1, 2, 4, 6));
    assert_eq!(Rect2::from_parts(Point2(-5, 5), Size2(5, -5)), Rect2(-5, 5, 0, 0));
    assert_eq!(
        Rect2U::from_parts(Point2U(0, u32::MAX), Size2U(u32::MAX, 0)),
        Rect2U(0, u32::MAX, u32::MAX, u32::MAX)
    );
    let r = Rect2::from_parts(Point2(7, 8), Size2(9, 10));
    assert_eq!(r.offset(), Point2(7, 8));
    assert_eq!(r.size(), Size2(9, 10));
}

#[test]
fn rect_scales_by_edge() {
    assert_eq!(Rect2U(2, 4, 6, 8) / 2, Rect2U(1, 2, 3, 4));
    assert_eq!(Rect2U(2, 4, 6, 8) * 3, Rect2U(6, 12, 18, 24));
    assert_eq!(Rect2(-2, 4, -6, 8) * -2, Rect2(4, -8, 12, -16));
    assert_eq!(Rect2(-3, 3, -7, 7) / 2, Rect2(-1, 1, -3, 3));
    assert_eq!(Rect2(-3, 3, -7, 7) / -2, Rect2(1, -1, 3, -3));
}

#[test]
fn rect_converts_between_kinds() {
    assert_eq!(Rect2::from(Rect2U(1, 2, u32::MAX, 2147483648)), Rect2(1, 2, -1, i32::MIN));
    assert_eq!(Rect2U::from(Rect2(1, 2, -1, i32::MIN)), Rect2U(1, 2, u32::MAX, 2147483648));
}
