use embedded_layout::geometry::{Point, Rect, Size};
use embedded_layout::horizontal;
use embedded_layout::vertical;

fn check_center_alignment(source: Rect, reference: Rect, result: Rect) {
    let center_of_reference = reference.top_left.x + (reference.size.width / 2) as i32;
    let center_of_result = result.top_left.x + (result.size.width / 2) as i32;

    // The size hasn't changed
    assert_eq!(result.size, source.size);

    // Horizontal coordinate matches reference
    assert_eq!(center_of_result, center_of_reference);

    // Vertical coordinate is unchanged
    assert_eq!(result.top_left.y, source.top_left.y);
}

#[test]
fn test_center() {
    let rect1 = Rect::with_corners(Point::new(0, 0), Point::new(10, 10));
    let rect2 = Rect::with_corners(Point::new(30, 20), Point::new(40, 50));

    let result = rect1.align_to(&rect2, horizontal::Center, vertical::NoAlignment);
    check_center_alignment(rect1, rect2, result);

    // Test the other direction
    let result = rect2.align_to(&rect1, horizontal::Center, vertical::NoAlignment);
    check_center_alignment(rect2, rect1, result);
}

fn check_left_alignment(source: Rect, reference: Rect, result: Rect) {
    // The size hasn't changed
    assert_eq!(result.size, source.size);

    // Horizontal coordinate matches reference
    assert_eq!(result.top_left.x, reference.top_left.x);

    // Vertical coordinate is unchanged
    assert_eq!(result.top_left.y, source.top_left.y);
}

#[test]
fn test_left() {
    let rect1 = Rect::with_corners(Point::new(0, 0), Point::new(10, 10));
    let rect2 = Rect::with_corners(Point::new(30, 20), Point::new(40, 50));

    let result = rect1.align_to(&rect2, horizontal::Left, vertical::NoAlignment);
    check_left_alignment(rect1, rect2, result);

    // Test the other direction
    let result = rect2.align_to(&rect1, horizontal::Left, vertical::NoAlignment);
    check_left_alignment(rect2, rect1, result);
}

fn check_right_alignment(source: Rect, reference: Rect, result: Rect) {
    // The size hasn't changed
    assert_eq!(result.size, source.size);

    // Horizontal coordinate matches reference
    assert_eq!(result.bottom_right().x, reference.bottom_right().x);

    // Vertical coordinate is unchanged
    assert_eq!(result.bottom_right().y, source.bottom_right().y);
}

#[test]
fn test_right() {
    let rect1 = Rect::with_corners(Point::new(0, 0), Point::new(10, 10));
    let rect2 = Rect::with_corners(Point::new(30, 20), Point::new(40, 50));

    let result = rect1.align_to(&rect2, horizontal::Right, vertical::NoAlignment);
    check_right_alignment(rect1, rect2, result);

    // Test the other direction
    let result = rect2.align_to(&rect1, horizontal::Right, vertical::NoAlignment);
    check_right_alignment(rect2, rect1, result);
}

fn check_left_to_right_alignment(source: Rect, reference: Rect, result: Rect) {
    // The size hasn't changed
    assert_eq!(result.size, source.size);

    // Left is at right + 1
    assert_eq!(result.top_left.x, reference.bottom_right().x + 1);

    // Vertical coordinate is unchanged
    assert_eq!(result.bottom_right().y, source.bottom_right().y);
}

#[test]
fn test_left_to_right() {
    let rect1 = Rect::with_corners(Point::new(0, 0), Point::new(10, 10));
    let rect2 = Rect::with_corners(Point::new(30, 20), Point::new(40, 50));

    let result = rect1.align_to(&rect2, horizontal::LeftToRight, vertical::NoAlignment);
    check_left_to_right_alignment(rect1, rect2, result);

    // Test the other direction
    let result = rect2.align_to(&rect1, horizontal::LeftToRight, vertical::NoAlignment);
    check_left_to_right_alignment(rect2, rect1, result);
}

#[test]
fn test_left_to_right_empty() {
    let rect1 = Rect::new(Point::new(0, 0), Size::zero());
    let rect2 = Rect::with_corners(Point::new(30, 20), Point::new(40, 50));

    let result = rect1.align_to(&rect2, horizontal::LeftToRight, vertical::NoAlignment);
    // The size hasn't changed
    assert_eq!(result.size, rect1.size);

    // Left is at right
    assert_eq!(result.top_left.x, rect2.bottom_right().x);

    // Vertical coordinate is unchanged
    assert_eq!(result.bottom_right().y, rect1.bottom_right().y);

    // Test the other direction
    let result = rect2.align_to(&rect1, horizontal::LeftToRight, vertical::NoAlignment);

    // The size hasn't changed
    assert_eq!(result.size, rect2.size);

    // Left is at right
    assert_eq!(result.top_left.x, rect1.bottom_right().x + 1);

    // Vertical coordinate is unchanged
    assert_eq!(result.bottom_right().y, rect2.bottom_right().y);
}

#[test]
fn test_right_to_left() {
    let rect1 = Rect::with_corners(Point::new(0, 0), Point::new(10, 10));
    let rect2 = Rect::with_corners(Point::new(30, 20), Point::new(40, 50));

    let result = rect1.align_to(&rect2, horizontal::RightToLeft, vertical::NoAlignment);
    // The size hasn't changed
    assert_eq!(result.size, rect1.size);

    // Left is at right - 1
    assert_eq!(result.bottom_right().x, rect2.top_left.x - 1);

    // Vertical coordinate is unchanged
    assert_eq!(result.bottom_right().y, rect1.bottom_right().y);

    // Test the other direction
    let result = rect2.align_to(&rect1, horizontal::RightToLeft, vertical::NoAlignment);
    // The size hasn't changed
    assert_eq!(result.size, rect2.size);

    // Left is at right + 1
    assert_eq!(result.bottom_right().x, rect1.top_left.x - 1);

    // Vertical coordinate is unchanged
    assert_eq!(result.bottom_right().y, rect2.bottom_right().y);
}

#[test]
fn test_right_to_left_empty() {
    let rect1 = Rect::new(Point::new(0, 0), Size::zero());
    let rect2 = Rect::with_corners(Point::new(30, 20), Point::new(40, 50));

    let result = rect1.align_to(&rect2, horizontal::RightToLeft, vertical::NoAlignment);
    // The size hasn't changed
    assert_eq!(result.size, rect1.size);

    // Left is at right
    assert_eq!(result.bottom_right().x, rect2.top_left.x);

    // Vertical coordinate is unchanged
    assert_eq!(result.bottom_right().y, rect1.bottom_right().y);

    // Test the other direction
    let result = rect2.align_to(&rect1, horizontal::RightToLeft, vertical::NoAlignment);
    // The size hasn't changed
    assert_eq!(result.size, rect2.size);

    // Left is at right + 1
    assert_eq!(result.bottom_right().x, rect1.top_left.x - 1);

    // Vertical coordinate is unchanged
    assert_eq!(result.bottom_right().y, rect2.bottom_right().y);
}

#[test]
fn test_realign_offset_is_zero() {
    // Aligning an already-aligned rectangle to the same reference with the
    // same mode moves it by nothing.
    let rect1 = Rect::with_corners(Point::new(3, 7), Point::new(12, 19));
    let rect2 = Rect::with_corners(Point::new(30, 20), Point::new(40, 50));

    let aligned = rect1.align_to(&rect2, horizontal::Right, vertical::Center);
    let again = aligned.align_to(&rect2, horizontal::Right, vertical::Center);
    assert_eq!(aligned, again);

    let aligned = rect1.align_to(&rect2, horizontal::LeftToRight, vertical::BottomToTop);
    let again = aligned.align_to(&rect2, horizontal::LeftToRight, vertical::BottomToTop);
    assert_eq!(aligned, again);
}

#[test]
fn test_alignment_leaves_reference_unchanged() {
    // Left-aligning one rectangle to another and right-aligning the other
    // back are independent: neither call touches its reference.
    let a = Rect::with_corners(Point::new(0, 0), Point::new(10, 10));
    let b = Rect::with_corners(Point::new(30, 20), Point::new(40, 50));

    let a_aligned = a.align_to(&b, horizontal::Left, vertical::NoAlignment);
    let b_aligned = b.align_to(&a, horizontal::Right, vertical::NoAlignment);

    assert_eq!(a, Rect::with_corners(Point::new(0, 0), Point::new(10, 10)));
    assert_eq!(b, Rect::with_corners(Point::new(30, 20), Point::new(40, 50)));
    assert_eq!(a_aligned.top_left.x, 30);
    assert_eq!(b_aligned.bottom_right().x, 10);
}
