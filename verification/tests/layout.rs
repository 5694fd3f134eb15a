use metrics::layout::transmute_array;
use metrics::layout::transmute_safe;
use metrics::layout::Layout;
use metrics::layout::MarkForSameBits;
use metrics::Point2;
use metrics::Point2U;
use metrics::Size2;
use metrics::Size2U;

#[test]
fn bytes_are_the_fields_low_byte_first() {
    assert_eq!(Point2(1, 2).bytes(), vec![1, 0, 0, 0, 2, 0, 0, 0]);
    assert_eq!(Point2(-1, -2).bytes(), vec![255, 255, 255, 255, 254, 255, 255, 255]);
    assert_eq!(Size2(0x0102_0304, 0).bytes(), vec![4, 3, 2, 1, 0, 0, 0, 0]);
    assert_eq!(Point2U(u32::MAX, 256).bytes(), vec![255, 255, 255, 255, 0, 1, 0, 0]);
    assert_eq!(Size2U(0, 0x8000_0000).bytes(), vec![0, 0, 0, 0, 0, 0, 0, 128]);
}

#[test]
fn reinterpreted_value_has_the_same_bytes() {
    let p = Point2(-7, 300);
    let s: Size2 = transmute_safe(&p);
    assert_eq!(s, Size2(-7, 300));
    assert_eq!(s.bytes(), p.bytes());
    let back: Point2 = transmute_safe(&s);
    assert_eq!(back, p);

    let u = Size2U(u32::MAX, 9);
    let q: Point2U = transmute_safe(&u);
    assert_eq!(q, Point2U(u32::MAX, 9));
    assert_eq!(q.bytes(), u.bytes());
    let again: Size2U = transmute_safe(&q);
    assert_eq!(again, u);
}

#[test]
fn reinterpret_is_what_transmute_gives() {
    let p = Point2(3, 4);
    let direct: Size2 = p.reinterpret();
    let through: Size2 = transmute_safe(&p);
    assert_eq!(direct, through);
    assert_eq!(direct, Size2::from(Size2U(3, 4)));
}

#[test]
fn reinterpreted_sequence_keeps_count_and_order() {
    let points = vec![Point2(1, 2), Point2(-3, 4), Point2(i32::MIN, i32::MAX)];
    let sizes: Vec<Size2> = transmute_array(&points);
    assert_eq!(sizes, vec![Size2(1, 2), Size2(-3, 4), Size2(i32::MIN, i32::MAX)]);
    for i in 0..points.len() {
        assert_eq!(sizes[i].bytes(), points[i].bytes());
    }
    let none: Vec<Point2U> = transmute_array::<Size2U, Point2U>(&[]);
    assert!(none.is_empty());
    let one: Vec<Point2U> = transmute_array(&[Size2U(5, 6)]);
    assert_eq!(one, vec![Point2U(5, 6)]);
}
