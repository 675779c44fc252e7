use embedded_layout::geometry::{Point, Rect, Size};
use embedded_layout::horizontal;
use embedded_layout::vertical;

fn check_center_alignment(source: Rect, reference: Rect, result: Rect) {
    let center_of_reference = reference.top_left.y + (reference.size.height / 2) as i32;
    let center_of_result = result.top_left.y + (result.size.height / 2) as i32;

    // The size hasn't changed
    assert_eq!(result.size, source.size);

    // Vertical coordinate matches reference
    assert_eq!(center_of_result, center_of_reference);

    // Horizontal coordinate is unchanged
    assert_eq!(result.top_left.x, source.top_left.x);
}

#[test]
fn mod_test_center() {
    let rect1 = Rect::with_corners(Point::new(0, 0), Point::new(10, 10));
    let rect2 = Rect::with_corners(Point::new(30, 20), Point::new(40, 50));

    let result = rect1.align_to(&rect2, horizontal::NoAlignment, vertical::Center);
    check_center_alignment(rect1, rect2, result);

    // Test the other direction
    let result = rect2.align_to(&rect1, horizontal::NoAlignment, vertical::Center);
    check_center_alignment(rect2, rect1, result);
}

fn check_top_alignment(source: Rect, reference: Rect, result: Rect) {
    // The size hasn't changed
    assert_eq!(result.size, source.size);

    // Vertical coordinate matches reference
    assert_eq!(result.top_left.y, reference.top_left.y);

    // Horizontal coordinate is unchanged
    assert_eq!(result.top_left.x, source.top_left.x);
}

#[test]
fn test_top() {
    let rect1 = Rect::with_corners(Point::new(0, 0), Point::new(10, 10));
    let rect2 = Rect::with_corners(Point::new(30, 20), Point::new(40, 50));

    let result = rect1.align_to(&rect2, horizontal::NoAlignment, vertical::Top);
    check_top_alignment(rect1, rect2, result);

    // Test the other direction
    let result = rect2.align_to(&rect1, horizontal::NoAlignment, vertical::Top);
    check_top_alignment(rect2, rect1, result);
}

fn check_bottom_alignment(source: Rect, reference: Rect, result: Rect) {
    // The size hasn't changed
    assert_eq!(result.size, source.size);

    // Vertical coordinate matches reference
    assert_eq!(result.bottom_right().y, reference.bottom_right().y);

    // Horizontal coordinate is unchanged
    assert_eq!(result.top_left.x, source.top_left.x);
}

#[test]
fn test_bottom() {
    let rect1 = Rect::with_corners(Point::new(0, 0), Point::new(10, 10));
    let rect2 = Rect::with_corners(Point::new(30, 20), Point::new(40, 50));

    let result = rect1.align_to(&rect2, horizontal::NoAlignment, vertical::Bottom);
    check_bottom_alignment(rect1, rect2, result);

    // Test the other direction
    let result = rect2.align_to(&rect1, horizontal::NoAlignment, vertical::Bottom);
    check_bottom_alignment(rect2, rect1, result);
}

fn check_top_to_bottom_alignment(source: Rect, reference: Rect, result: Rect) {
    // The size hasn't changed
    assert_eq!(result.size, source.size);

    // Top is at bottom + 1
    assert_eq!(result.top_left.y, reference.bottom_right().y + 1);

    // Horizontal coordinate is unchanged
    assert_eq!(result.top_left.x, source.top_left.x);
}

#[test]
fn test_top_to_bottom() {
    let rect1 = Rect::with_corners(Point::new(0, 0), Point::new(10, 10));
    let rect2 = Rect::with_corners(Point::new(30, 20), Point::new(40, 50));

    let result = rect1.align_to(&rect2, horizontal::NoAlignment, vertical::TopToBottom);
    check_top_to_bottom_alignment(rect1, rect2, result);

    // Test the other direction
    let result = rect2.align_to(&rect1, horizontal::NoAlignment, vertical::TopToBottom);
    check_top_to_bottom_alignment(rect2, rect1, result);
}

#[test]
fn test_top_to_bottom_empty() {
    let rect1 = Rect::new(Point::new(0, 0), Size::zero());
    let rect2 = Rect::with_corners(Point::new(30, 20), Point::new(40, 50));

    let result = rect1.align_to(&rect2, horizontal::NoAlignment, vertical::TopToBottom);
    // The size hasn't changed
    assert_eq!(result.size, rect1.size);

    // Top is at bottom
    assert_eq!(result.top_left.y, rect2.bottom_right().y);

    // Horizontal coordinate is unchanged
    assert_eq!(result.top_left.x, rect1.top_left.x);

    // Test the other direction
    let result = rect2.align_to(&rect1, horizontal::NoAlignment, vertical::TopToBottom);

    // The size hasn't changed
    assert_eq!(result.size, rect2.size);

    // Top is at bottom + 1
    assert_eq!(result.top_left.y, rect1.bottom_right().y + 1);

    // Horizontal coordinate is unchanged
    assert_eq!(result.top_left.x, rect2.top_left.x);
}

#[test]
fn test_bottom_to_top() {
    let rect1 = Rect::with_corners(Point::new(0, 0), Point::new(10, 10));
    let rect2 = Rect::with_corners(Point::new(30, 20), Point::new(40, 50));

    let result = rect1.align_to(&rect2, horizontal::NoAlignment, vertical::BottomToTop);
    // The size hasn't changed
    assert_eq!(result.size, rect1.size);

    // Bottom is at top - 1
    assert_eq!(result.bottom_right().y, rect2.top_left.y - 1);

    // Horizontal coordinate is unchanged
    assert_eq!(result.top_left.x, rect1.top_left.x);

    // Test the other direction
    let result = rect2.align_to(&rect1, horizontal::NoAlignment, vertical::BottomToTop);
    // The size hasn't changed
    assert_eq!(result.size, rect2.size);

    // Bottom is at top - 1
    assert_eq!(result.bottom_right().y, rect1.top_left.y - 1);

    // Horizontal coordinate is unchanged
    assert_eq!(result.top_left.x, rect2.top_left.x);
}

#[test]
fn test_bottom_to_top_empty() {
    let rect1 = Rect::new(Point::new(0, 0), Size::zero());
    let rect2 = Rect::with_corners(Point::new(30, 20), Point::new(40, 50));

    let result = rect1.align_to(&rect2, horizontal::NoAlignment, vertical::BottomToTop);
    // The size hasn't changed
    assert_eq!(result.size, rect1.size);

    // Bottom is at top
    assert_eq!(result.bottom_right().y, rect2.top_left.y);

    // Horizontal coordinate is unchanged
    assert_eq!(result.top_left.x, rect1.top_left.x);

    // Test the other direction
    let result = rect2.align_to(&rect1, horizontal::NoAlignment, vertical::BottomToTop);
    // The size hasn't changed
    assert_eq!(result.size, rect2.size);

    // Bottom is at top - 1
    assert_eq!(result.bottom_right().y, rect1.top_left.y - 1);

    // Horizontal coordinate is unchanged
    assert_eq!(result.top_left.x, rect2.top_left.x);
}
