use embedded_layout::geometry::{Point, Rect, Size};
use embedded_layout::horizontal;
use embedded_layout::linear_layout::LinearLayout;
use embedded_layout::spacing::{DistributeFill, ElementSpacing, FixedMargin, Tight};
use embedded_layout::vertical;

fn rect(x: i32, y: i32, width: u32, height: u32) -> Rect {
    Rect::new(Point::new(x, y), Size::new(width, height))
}

#[test]
fn layout_size() {
    let views = vec![rect(0, 0, 10, 20), rect(0, 0, 10, 20)];
    let size = LinearLayout::horizontal(views).arrange().size();

    assert_eq!(Size::new(20, 20), size);

    let views = vec![rect(0, 0, 10, 20), rect(0, 0, 10, 20)];
    let size = LinearLayout::vertical(views).arrange().size();

    assert_eq!(Size::new(10, 40), size);
}

#[test]
fn layout_arrange_vertical() {
    let views = vec![rect(10, 30, 10, 5), rect(-50, 10, 5, 10)];

    let layout = LinearLayout::vertical(views).arrange().translate(Point::new(1, 2));

    assert_eq!(layout.views[0], rect(1, 2, 10, 5));
    assert_eq!(layout.views[1], rect(1, 7, 5, 10));
}

#[test]
fn layout_arrange_vertical_secondary() {
    let views = vec![rect(10, 30, 10, 5), rect(-50, 10, 5, 10)];

    let layout = LinearLayout::vertical(views)
        .with_alignment(horizontal::Right)
        .arrange()
        .translate(Point::new(1, 2));

    assert_eq!(layout.views[0], rect(1, 2, 10, 5));
    assert_eq!(layout.views[1], rect(6, 7, 5, 10));
}

#[test]
fn layout_arrange_horizontal() {
    let views = vec![rect(10, 30, 10, 5), rect(-50, 10, 5, 10)];

    let layout = LinearLayout::horizontal(views).arrange().translate(Point::new(1, 2));

    assert_eq!(layout.views[0], rect(1, 7, 10, 5));
    assert_eq!(layout.views[1], rect(11, 2, 5, 10));
}

#[test]
fn layout_arrange_horizontal_secondary() {
    let views = vec![rect(10, 30, 10, 5), rect(-50, 10, 5, 10)];

    let layout = LinearLayout::horizontal(views)
        .with_alignment(vertical::Top)
        .arrange()
        .translate(Point::new(1, 2));

    assert_eq!(layout.views[0], rect(1, 2, 10, 5));
    assert_eq!(layout.views[1], rect(11, 2, 5, 10));
}

#[test]
fn layout_spacing_size() {
    let views = vec![rect(10, 30, 10, 5), rect(-50, 10, 5, 10)];

    let size = LinearLayout::horizontal(views)
        .with_spacing(FixedMargin(2))
        .with_alignment(vertical::Top)
        .arrange()
        .size();

    assert_eq!(Size::new(17, 10), size);

    let views = vec![rect(10, 30, 10, 5), rect(-50, 10, 5, 10)];

    let size = LinearLayout::vertical(views).with_spacing(FixedMargin(2)).arrange().size();

    assert_eq!(Size::new(10, 17), size);
}

#[test]
fn layout_spacing() {
    let views = vec![rect(10, 30, 10, 5), rect(-50, 10, 5, 10)];

    let layout = LinearLayout::horizontal(views)
        .with_spacing(FixedMargin(2))
        .with_alignment(vertical::Top)
        .arrange()
        .translate(Point::new(1, 2));

    assert_eq!(layout.views[0], rect(1, 2, 10, 5));
    assert_eq!(layout.views[1], rect(13, 2, 5, 10));
}

#[test]
fn layout_spacing_distribute_overflow() {
    let views = vec![rect(0, 0, 5, 5), rect(0, 0, 5, 5), rect(0, 0, 5, 5)];

    let layout = LinearLayout::horizontal(views)
        .with_spacing(DistributeFill(11))
        .with_alignment(vertical::TopToBottom)
        .arrange();

    assert_eq!(Size::new(11, 15), layout.size());

    // Placements overlap when the demanded size is less than the natural
    // size; the engine does not fail and produces this exact pattern.
    assert_eq!(layout.views[0], rect(0, 0, 5, 5));
    assert_eq!(layout.views[1], rect(3, 5, 5, 5));
    assert_eq!(layout.views[2], rect(6, 10, 5, 5));
}

#[test]
fn layout_spacing_distribute_fill() {
    let views = vec![rect(0, 0, 2, 2), rect(0, 0, 2, 2), rect(0, 0, 2, 2), rect(0, 0, 2, 2)];

    let layout = LinearLayout::vertical(views).with_spacing(DistributeFill(18)).arrange();

    assert_eq!(layout.views[0], rect(0, 0, 2, 2));
    assert_eq!(layout.views[1], rect(0, 6, 2, 2));
    assert_eq!(layout.views[2], rect(0, 11, 2, 2));
    assert_eq!(layout.views[3], rect(0, 16, 2, 2));
    assert_eq!(Size::new(2, 18), layout.size());
}

#[test]
fn layout_size_independent_of_view_location() {
    let views = vec![rect(0, 0, 10, 20), rect(0, 0, 10, 20)];

    let size1 = LinearLayout::horizontal(views).arrange().bounds().size;

    let views = vec![rect(30, 50, 10, 20), rect(0, 0, 10, 20)];

    let size2 = LinearLayout::horizontal(views).arrange().bounds().size;

    assert_eq!(size1, size2);
}

#[test]
fn test_empty() {
    let views: Vec<Rect> = Vec::new();

    let bounding =
        LinearLayout::horizontal(views).arrange().translate(Point::new(-5, -5)).bounds();

    // An empty collection arranges to a zero-size box at the layout anchor.
    assert_eq!(bounding, rect(-5, -5, 0, 0));
}

#[test]
fn test_vertical_left() {
    let r1 = Rect::with_corners(Point::new(85, 55), Point::new(86, 56)); // 2x2
    let r2 = Rect::with_corners(Point::new(5, 10), Point::new(10, 12)); // 6x3
    let r3 = Rect::with_corners(Point::new(-5, 0), Point::new(-2, 4)); // 4x5

    let layout =
        LinearLayout::vertical(vec![r1, r2, r3]).arrange().translate(Point::new(-5, -5));

    let bounding = layout.bounds();
    assert_eq!(bounding.size, Size::new(6, 10));
    assert_eq!(bounding, rect(-5, -5, 6, 10));

    assert_eq!(layout.views[0].size, Size::new(2, 2));
    assert_eq!(layout.views[0], Rect::with_corners(Point::new(-5, -5), Point::new(-4, -4)));

    assert_eq!(layout.views[1].size, Size::new(6, 3));
    assert_eq!(layout.views[1], Rect::with_corners(Point::new(-5, -3), Point::new(0, -1)));

    assert_eq!(layout.views[2].size, Size::new(4, 5));
    assert_eq!(layout.views[2], Rect::with_corners(Point::new(-5, 0), Point::new(-2, 4)));
}

#[test]
fn test_vertical_right() {
    let r1 = Rect::with_corners(Point::new(85, 55), Point::new(86, 56)); // 2x2
    let r2 = Rect::with_corners(Point::new(5, 10), Point::new(10, 12)); // 6x3
    let r3 = Rect::with_corners(Point::new(-5, 0), Point::new(-2, 4)); // 4x5

    let layout = LinearLayout::vertical(vec![r1, r2, r3])
        .with_alignment(horizontal::Right)
        .arrange()
        .translate(Point::new(-5, -5));

    let bounding = layout.bounds();
    assert_eq!(bounding.size, Size::new(6, 10));
    assert_eq!(bounding, rect(-5, -5, 6, 10));

    assert_eq!(layout.views[0].size, Size::new(2, 2));
    assert_eq!(layout.views[0], Rect::with_corners(Point::new(-1, -5), Point::new(0, -4)));

    assert_eq!(layout.views[1].size, Size::new(6, 3));
    assert_eq!(layout.views[1], Rect::with_corners(Point::new(-5, -3), Point::new(0, -1)));

    assert_eq!(layout.views[2].size, Size::new(4, 5));
    assert_eq!(layout.views[2], Rect::with_corners(Point::new(-3, 0), Point::new(0, 4)));
}

#[test]
fn single_element_arranges_like_plain_alignment() {
    // Arranging a one-element layout equals aligning the element directly
    // to the layout's origin-anchored bounds rectangle; no spacing math is
    // involved.
    let view = rect(7, -3, 4, 9);

    let layout = LinearLayout::horizontal(vec![view])
        .with_spacing(DistributeFill(40))
        .arrange();

    let bounds = Rect::new(Point::new(0, 0), view.size);
    let aligned = view.align_to(&bounds, horizontal::Left, vertical::Bottom);

    assert_eq!(layout.views[0], aligned);
    assert_eq!(layout.size(), view.size);
}

#[test]
fn spacing_policy_operations() {
    // Tight: identity on the total, no extra offsets.
    assert_eq!(Tight.adjust_total(15, 3), 15);
    assert_eq!(Tight.placement_offset(2, 3, 15), 0);

    // FixedMargin: every gap gets the margin, the total grows accordingly.
    assert_eq!(FixedMargin(2).adjust_total(15, 2), 17);
    assert_eq!(FixedMargin(-3).adjust_total(15, 3), 9);
    assert_eq!(FixedMargin(2).placement_offset(0, 2, 15), 0);
    assert_eq!(FixedMargin(2).placement_offset(1, 2, 15), 2);
    assert_eq!(FixedMargin(0).adjust_total(15, 0), 15);

    // DistributeFill: the total is forced to the target; the slack is
    // spread over the gaps, remainder pixels to the earliest gaps first.
    assert_eq!(DistributeFill(18).adjust_total(8, 4), 18);
    assert_eq!(DistributeFill(18).placement_offset(0, 4, 8), 0);
    assert_eq!(DistributeFill(18).placement_offset(1, 4, 8), 4);
    assert_eq!(DistributeFill(18).placement_offset(2, 4, 8), 3);
    assert_eq!(DistributeFill(18).placement_offset(3, 4, 8), 3);

    // Negative slack truncates towards zero, like the placements demand.
    assert_eq!(DistributeFill(11).placement_offset(1, 3, 15), -2);
    assert_eq!(DistributeFill(11).placement_offset(2, 3, 15), -2);
    assert_eq!(DistributeFill(10).placement_offset(1, 3, 15), -2);
    assert_eq!(DistributeFill(10).placement_offset(2, 3, 15), -2);
}

#[test]
fn measure_applies_spacing_adjustment() {
    // The measure pass folds sizes and lets the spacing policy adjust the
    // primary axis only.
    let views = vec![rect(10, 30, 10, 5), rect(-50, 10, 5, 10)];
    let measured = LinearLayout::horizontal(views).with_spacing(FixedMargin(2)).measure();
    assert_eq!(measured, Size::new(17, 10));

    let views = vec![rect(10, 30, 10, 5), rect(-50, 10, 5, 10)];
    let measured = LinearLayout::vertical(views).with_spacing(FixedMargin(2)).measure();
    assert_eq!(measured, Size::new(10, 17));

    // DistributeFill forces the primary size to the target, even when the
    // elements do not fit.
    let views = vec![rect(0, 0, 5, 5), rect(0, 0, 5, 5), rect(0, 0, 5, 5)];
    let measured = LinearLayout::horizontal(views).with_spacing(DistributeFill(11)).measure();
    assert_eq!(measured, Size::new(11, 5));
}

#[test]
fn layout_align_to_display_area() {
    // The usual last step: arrange a group, then align it as a whole to a
    // display's bounding box. The elements keep their relative placement.
    let views = vec![rect(0, 0, 10, 20), rect(0, 0, 10, 20)];
    let display = rect(0, 0, 64, 42);

    let layout = LinearLayout::horizontal(views)
        .arrange()
        .align_to(&display, horizontal::Center, vertical::Center);

    assert_eq!(layout.bounds(), rect(22, 11, 20, 20));
    assert_eq!(layout.views[0], rect(22, 11, 10, 20));
    assert_eq!(layout.views[1], rect(32, 11, 10, 20));
}
