use embedded_layout::geometry::{Point, Rect, Size};

#[test]
fn test_size() {
    let rect = Rect::with_corners(Point::new(0, 0), Point::new(1, 2));

    assert_eq!(rect.size, Size::new(2, 3));
}

#[test]
fn test_enveloping() {
    let rect0 = Rect::with_corners(Point::new(-1, -1), Point::new(0, 0));
    let rect1 = Rect::with_corners(Point::new(0, 0), Point::new(1, 1));
    let rect2 = Rect::with_corners(Point::new(0, 0), Point::new(2, 2));

    assert_eq!(rect2, rect2.enveloping(&rect1));
    assert_eq!(rect2, rect1.enveloping(&rect2));
    assert_eq!(
        Rect::with_corners(Point::new(-1, -1), Point::new(2, 2)),
        rect0.enveloping(&rect2)
    );
}

#[test]
fn test_translate_keeps_size() {
    let rect = Rect::new(Point::new(3, -4), Size::new(7, 9));
    let moved = rect.translate(Point::new(-10, 25));

    assert_eq!(moved.size, rect.size);
    assert_eq!(moved.top_left, Point::new(-7, 21));
}

#[test]
fn test_bottom_right_saturates_on_empty_axis() {
    let rect = Rect::new(Point::new(10, 20), Size::new(11, 31));
    assert_eq!(rect.bottom_right(), Point::new(20, 50));

    // An empty axis has its far edge at its near edge.
    let sliver = Rect::new(Point::new(0, 0), Size::new(0, 4));
    assert_eq!(sliver.bottom_right(), Point::new(0, 3));
}

#[test]
fn test_center_matches_truncating_convention() {
    let rect = Rect::new(Point::new(10, 20), Size::new(11, 31));
    assert_eq!(rect.center(), Point::new(15, 35));

    // Even sizes have no exact center pixel; the chosen one is size / 2
    // from the near edge.
    let even = Rect::new(Point::new(0, 0), Size::new(10, 4));
    assert_eq!(even.center(), Point::new(5, 2));
}
