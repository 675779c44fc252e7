//! The linear arrangement engine.
//!
//! A [`LinearLayout`] arranges an ordered collection of rectangles along a
//! primary axis in two passes:
//!
//! 1. *measure*: the elements' sizes are folded into the measured layout
//!    size using the secondary alignment's fold rule;
//! 2. *arrange*: the first element is aligned to the layout's own bounds
//!    rectangle (anchored at [`LinearLayout::position`], conventionally the
//!    origin), and every further element is aligned to the immediately
//!    preceding element's final bounds, cascading along the primary axis,
//!    with the spacing policy's extra offset applied to every gap.
//!
//! The final positions of all elements are pinned down exactly by the
//! [`placed_x`] and [`placed_y`] functions. Degenerate inputs do not fail:
//! an empty collection arranges to nothing and has an empty bounding
//! rectangle, and a spacing target smaller than the content simply yields
//! overlapping elements.

use crate::align::{
    axis_align, axis_offset, AxisAlignment, HorizontalAlignment, SecondaryAlignment,
    VerticalAlignment,
};
use crate::geometry::{Point, Rect, Size};
use crate::measure::{
    cascading, first_alignment, first_mode, is_cascading, lemma_prefix_measures_bounded,
    lemma_prefix_measures_step, max_height, max_of_heights, max_of_widths, max_width, sum_heights,
    sum_widths,
};
use crate::spacing::{ElementSpacing, Tight};
use crate::view_group::{
    envelope_bottom, envelope_height, envelope_left, envelope_right, envelope_top, envelope_width,
    ViewGroupHelper,
};
use vstd::prelude::*;

verus! {

/// The primary axis of a linear layout.
#[derive(Copy, Clone, PartialEq, Eq, Structural, Debug)]
pub enum LayoutDirection {
    /// Elements are placed left to right.
    Horizontal,
    /// Elements are placed top to bottom.
    Vertical,
}

/// The measured width of a layout before any spacing adjustment: the sum of
/// the element widths when the width lies on the primary axis or the
/// secondary alignment cascades, the maximum otherwise.
pub open spec fn measured_width(
    direction: LayoutDirection,
    secondary: AxisAlignment,
    s: Seq<Rect>,
) -> int {
    if direction == LayoutDirection::Horizontal || is_cascading(secondary) {
        sum_widths(s)
    } else {
        max_of_widths(s)
    }
}

/// The measured height of a layout before any spacing adjustment.
pub open spec fn measured_height(
    direction: LayoutDirection,
    secondary: AxisAlignment,
    s: Seq<Rect>,
) -> int {
    if direction == LayoutDirection::Vertical || is_cascading(secondary) {
        sum_heights(s)
    } else {
        max_of_heights(s)
    }
}

/// The measured size along the primary axis: always the sum of the element
/// sizes along that axis.
pub open spec fn measured_primary(direction: LayoutDirection, s: Seq<Rect>) -> int {
    if direction == LayoutDirection::Horizontal {
        sum_widths(s)
    } else {
        sum_heights(s)
    }
}

/// The final left edge of the element at index `i` of an arranged layout
/// with the given parameters, over the original element rectangles `s`.
///
/// The first element is aligned to the layout bounds rectangle anchored at
/// `origin` with the measured size; every further element is aligned to the
/// previously placed element. On the primary axis the first element uses the
/// near-edge alignment and the rest cascade; on the secondary axis the first
/// element uses the first-element mode of the secondary alignment and the
/// rest use the secondary alignment itself. The spacing policy's extra
/// offset enters on the primary axis only.
pub open spec fn placed_x<ES: ElementSpacing>(
    spacing: ES,
    direction: LayoutDirection,
    secondary: AxisAlignment,
    origin: Point,
    s: Seq<Rect>,
    i: int,
) -> int
    decreases i,
{
    match direction {
        LayoutDirection::Horizontal => {
            let extra = spacing.offset_spec(i, s.len() as int, measured_primary(direction, s));
            if i <= 0 {
                s[0].left() + axis_offset(
                    AxisAlignment::Near,
                    s[0].left(),
                    s[0].width(),
                    origin.x as int,
                    measured_width(direction, secondary, s),
                    extra,
                )
            } else {
                s[i].left() + axis_offset(
                    AxisAlignment::NearToFar,
                    s[i].left(),
                    s[i].width(),
                    placed_x(spacing, direction, secondary, origin, s, i - 1),
                    s[i - 1].width(),
                    extra,
                )
            }
        },
        LayoutDirection::Vertical => {
            if i <= 0 {
                s[0].left() + axis_offset(
                    first_mode(secondary),
                    s[0].left(),
                    s[0].width(),
                    origin.x as int,
                    measured_width(direction, secondary, s),
                    0,
                )
            } else {
                s[i].left() + axis_offset(
                    secondary,
                    s[i].left(),
                    s[i].width(),
                    placed_x(spacing, direction, secondary, origin, s, i - 1),
                    s[i - 1].width(),
                    0,
                )
            }
        },
    }
}

/// The final top edge of the element at index `i` of an arranged layout;
/// the vertical counterpart of [`placed_x`].
pub open spec fn placed_y<ES: ElementSpacing>(
    spacing: ES,
    direction: LayoutDirection,
    secondary: AxisAlignment,
    origin: Point,
    s: Seq<Rect>,
    i: int,
) -> int
    decreases i,
{
    match direction {
        LayoutDirection::Vertical => {
            let extra = spacing.offset_spec(i, s.len() as int, measured_primary(direction, s));
            if i <= 0 {
                s[0].top() + axis_offset(
                    AxisAlignment::Near,
                    s[0].top(),
                    s[0].height(),
                    origin.y as int,
                    measured_height(direction, secondary, s),
                    extra,
                )
            } else {
                s[i].top() + axis_offset(
                    AxisAlignment::NearToFar,
                    s[i].top(),
                    s[i].height(),
                    placed_y(spacing, direction, secondary, origin, s, i - 1),
                    s[i - 1].height(),
                    extra,
                )
            }
        },
        LayoutDirection::Horizontal => {
            if i <= 0 {
                s[0].top() + axis_offset(
                    first_mode(secondary),
                    s[0].top(),
                    s[0].height(),
                    origin.y as int,
                    measured_height(direction, secondary, s),
                    0,
                )
            } else {
                s[i].top() + axis_offset(
                    secondary,
                    s[i].top(),
                    s[i].height(),
                    placed_y(spacing, direction, secondary, origin, s, i - 1),
                    s[i - 1].height(),
                    0,
                )
            }
        },
    }
}

/// All quantities of an arrangement fit the machine integer types they are
/// stored in: the measured sizes fit `u32`, and every spacing offset, every
/// final element position and every element translation fits `i32`. These
/// are exactly the bounds the pixel types force; on any inputs that satisfy
/// them the arrangement is total.
pub open spec fn arrange_fits<ES: ElementSpacing>(
    spacing: ES,
    direction: LayoutDirection,
    secondary: AxisAlignment,
    origin: Point,
    s: Seq<Rect>,
) -> bool {
    &&& measured_width(direction, secondary, s) <= u32::MAX
    &&& measured_height(direction, secondary, s) <= u32::MAX
    &&& forall|i: int|
        0 <= i < s.len() ==> {
            &&& i32::MIN <= spacing.offset_spec(
                i,
                s.len() as int,
                measured_primary(direction, s),
            ) <= i32::MAX
            &&& i32::MIN <= #[trigger] placed_x(spacing, direction, secondary, origin, s, i)
                <= i32::MAX
            &&& i32::MIN <= placed_y(spacing, direction, secondary, origin, s, i) <= i32::MAX
            &&& i32::MIN <= placed_x(spacing, direction, secondary, origin, s, i) - s[i].left()
                <= i32::MAX
            &&& i32::MIN <= placed_y(spacing, direction, secondary, origin, s, i) - s[i].top()
                <= i32::MAX
        }
}

/// Law: a one-element layout degenerates to a single alignment. Its
/// measured size is the element's own size, and arranging it places the
/// element exactly as aligning it directly to the layout's origin-anchored
/// bounds rectangle — near-edge alignment on the primary axis and the
/// first-element mode of the secondary alignment on the secondary axis —
/// with no spacing involved. (An empty layout places nothing at all.)
pub proof fn lemma_single_element_placement<ES: ElementSpacing>(
    spacing: ES,
    direction: LayoutDirection,
    secondary: AxisAlignment,
    origin: Point,
    s: Seq<Rect>,
)
    requires
        s.len() == 1,
        spacing.offset_spec(0, 1, measured_primary(direction, s)) == 0,
    ensures
        measured_width(direction, secondary, s) == s[0].width(),
        measured_height(direction, secondary, s) == s[0].height(),
        ({
            let bounds = Rect { top_left: origin, size: s[0].size };
            let (primary_mode, secondary_mode) = if direction == LayoutDirection::Horizontal {
                (AxisAlignment::Near, first_mode(secondary))
            } else {
                (first_mode(secondary), AxisAlignment::Near)
            };
            &&& placed_x(spacing, direction, secondary, origin, s, 0) == s[0].left()
                + crate::horizontal::horizontal_offset(primary_mode, s[0], bounds, 0)
            &&& placed_y(spacing, direction, secondary, origin, s, 0) == s[0].top()
                + crate::vertical::vertical_offset(secondary_mode, s[0], bounds, 0)
        }),
{
    assert(s.drop_last() =~= Seq::<Rect>::empty());
    assert(sum_widths(Seq::<Rect>::empty()) == 0);
    assert(sum_heights(Seq::<Rect>::empty()) == 0);
    assert(max_of_widths(Seq::<Rect>::empty()) == 0);
    assert(max_of_heights(Seq::<Rect>::empty()) == 0);
    assert(s.last() == s[0]);
}

/// A linear layout: an ordered collection of rectangles together with the
/// parameters that govern their arrangement.
///
/// The fields are plain data; any combination is valid. [`LinearLayout::arrange`]
/// computes the final element positions.
pub struct LinearLayout<ES> {
    /// The anchor of the layout: the top-left corner of the bounds
    /// rectangle the first element is aligned to.
    pub position: Point,
    /// The primary axis.
    pub direction: LayoutDirection,
    /// The secondary-axis alignment mode, applied to every element.
    pub secondary: AxisAlignment,
    /// The element spacing policy.
    pub spacing: ES,
    /// The element rectangles, in placement order.
    pub views: Vec<Rect>,
}

impl LinearLayout<Tight> {
    /// Create a layout that places the given rectangles left to right,
    /// with the default secondary alignment (bottom) and tight spacing.
    pub fn horizontal(views: Vec<Rect>) -> (r: LinearLayout<Tight>)
        ensures
            r.position == (Point { x: 0i32, y: 0i32 }),
            r.direction == LayoutDirection::Horizontal,
            r.secondary == AxisAlignment::Far,
            r.spacing == (Tight),
            r.views@ == views@,
    {
        LinearLayout {
            position: Point::zero(),
            direction: LayoutDirection::Horizontal,
            secondary: AxisAlignment::Far,
            spacing: Tight,
            views,
        }
    }

    /// Create a layout that places the given rectangles top to bottom,
    /// with the default secondary alignment (left) and tight spacing.
    pub fn vertical(views: Vec<Rect>) -> (r: LinearLayout<Tight>)
        ensures
            r.position == (Point { x: 0i32, y: 0i32 }),
            r.direction == LayoutDirection::Vertical,
            r.secondary == AxisAlignment::Near,
            r.spacing == (Tight),
            r.views@ == views@,
    {
        LinearLayout {
            position: Point::zero(),
            direction: LayoutDirection::Vertical,
            secondary: AxisAlignment::Near,
            spacing: Tight,
            views,
        }
    }
}

impl<ES: ElementSpacing> LinearLayout<ES> {
    /// Change the secondary alignment. For a horizontal layout pass a
    /// vertical alignment option, and the other way round: the mode is
    /// applied on the secondary axis.
    pub fn with_alignment<S: SecondaryAlignment>(self, alignment: S) -> (r: LinearLayout<ES>)
        ensures
            r.position == self.position,
            r.direction == self.direction,
            r.secondary == S::secondary_mode_spec(),
            r.spacing == self.spacing,
            r.views@ == self.views@,
    {
        let secondary = alignment.secondary_mode();
        LinearLayout {
            position: self.position,
            direction: self.direction,
            secondary,
            spacing: self.spacing,
            views: self.views,
        }
    }

    /// Change the element spacing policy.
    pub fn with_spacing<E2: ElementSpacing>(self, spacing: E2) -> (r: LinearLayout<E2>)
        ensures
            r.position == self.position,
            r.direction == self.direction,
            r.secondary == self.secondary,
            r.spacing == spacing,
            r.views@ == self.views@,
    {
        LinearLayout {
            position: self.position,
            direction: self.direction,
            secondary: self.secondary,
            spacing,
            views: self.views,
        }
    }

    /// Consume the layout and return the rectangles.
    pub fn into_inner(self) -> (r: Vec<Rect>)
        ensures
            r@ == self.views@,
    {
        self.views
    }

    /// Fold the element sizes into the measured layout size, before any
    /// spacing adjustment.
    fn measure_views(&self) -> (r: Size)
        requires
            measured_width(self.direction, self.secondary, self.views@) <= u32::MAX,
            measured_height(self.direction, self.secondary, self.views@) <= u32::MAX,
        ensures
            r.width == measured_width(self.direction, self.secondary, self.views@),
            r.height == measured_height(self.direction, self.secondary, self.views@),
    {
        let ghost s = self.views@;
        let count = self.views.len();
        if count == 0 {
            proof {
                assert(sum_widths(s) == 0);
                assert(sum_heights(s) == 0);
                assert(max_of_widths(s) == 0);
                assert(max_of_heights(s) == 0);
            }
            return Size { width: 0, height: 0 };
        }
        let mut size: Size = self.views[0].size;
        proof {
            lemma_prefix_measures_step(s, 0);
            assert(s.take(0int) =~= Seq::<Rect>::empty());
        }
        let mut i: usize = 1;
        while i < count
            invariant
                1 <= i <= count,
                count == s.len(),
                self.views@ == s,
                measured_width(self.direction, self.secondary, s) <= u32::MAX,
                measured_height(self.direction, self.secondary, s) <= u32::MAX,
                size.width == measured_width(self.direction, self.secondary, s.take(i as int)),
                size.height == measured_height(self.direction, self.secondary, s.take(i as int)),
            decreases count - i,
        {
            proof {
                lemma_prefix_measures_step(s, i as int);
                lemma_prefix_measures_bounded(s, i as int + 1);
            }
            let next = self.views[i].size;
            let casc = matches!(self.secondary, AxisAlignment::NearToFar | AxisAlignment::FarToNear);
            size = match self.direction {
                LayoutDirection::Horizontal => if casc {
                    cascading(size, next)
                } else {
                    max_height(size, next)
                },
                LayoutDirection::Vertical => if casc {
                    cascading(size, next)
                } else {
                    max_width(size, next)
                },
            };
            i += 1;
        }
        proof {
            assert(s.take(count as int) =~= s);
        }
        size
    }

    /// The measure pass on its own: fold the element sizes into the
    /// measured size, then let the spacing policy adjust the primary-axis
    /// component. The secondary-axis component is untouched.
    pub fn measure(&self) -> (r: Size)
        requires
            measured_width(self.direction, self.secondary, self.views@) <= u32::MAX,
            measured_height(self.direction, self.secondary, self.views@) <= u32::MAX,
            0 <= self.spacing.adjust_spec(
                measured_primary(self.direction, self.views@),
                self.views@.len() as int,
            ) <= u32::MAX,
        ensures
            self.direction == LayoutDirection::Horizontal ==> {
                &&& r.width == self.spacing.adjust_spec(
                    measured_primary(self.direction, self.views@),
                    self.views@.len() as int,
                )
                &&& r.height == measured_height(self.direction, self.secondary, self.views@)
            },
            self.direction == LayoutDirection::Vertical ==> {
                &&& r.width == measured_width(self.direction, self.secondary, self.views@)
                &&& r.height == self.spacing.adjust_spec(
                    measured_primary(self.direction, self.views@),
                    self.views@.len() as int,
                )
            },
    {
        let size = self.measure_views();
        match self.direction {
            LayoutDirection::Horizontal => Size {
                width: self.spacing.adjust_total(size.width, self.views.len()),
                height: size.height,
            },
            LayoutDirection::Vertical => Size {
                width: size.width,
                height: self.spacing.adjust_total(size.height, self.views.len()),
            },
        }
    }

    /// Arrange the elements: measure the collection, then place every
    /// element at its final position. The layout parameters and the element
    /// sizes are unchanged; the element positions afterwards are exactly
    /// [`placed_x`] and [`placed_y`] over the original rectangles. An empty
    /// collection is returned unchanged.
    pub fn arrange(self) -> (r: LinearLayout<ES>)
        requires
            arrange_fits(self.spacing, self.direction, self.secondary, self.position, self.views@),
        ensures
            r.position == self.position,
            r.direction == self.direction,
            r.secondary == self.secondary,
            r.spacing == self.spacing,
            r.views@.len() == self.views@.len(),
            forall|i: int|
                0 <= i < self.views@.len() ==> {
                    &&& (#[trigger] r.views@[i]).size == self.views@[i].size
                    &&& r.views@[i].left() == placed_x(
                        self.spacing,
                        self.direction,
                        self.secondary,
                        self.position,
                        self.views@,
                        i,
                    )
                    &&& r.views@[i].top() == placed_y(
                        self.spacing,
                        self.direction,
                        self.secondary,
                        self.position,
                        self.views@,
                        i,
                    )
                },
    {
        let ghost s = self.views@;
        let count = self.views.len();
        if count == 0 {
            return self;
        }
        // Measure pass: fold the element sizes into the measured size.
        let size = self.measure_views();
        let primary_size: u32 = match self.direction {
            LayoutDirection::Horizontal => size.width,
            LayoutDirection::Vertical => size.height,
        };
        // Arrange pass: place each element against the previous one.
        let mut placed: Vec<Rect> = Vec::new();
        let mut previous: Rect = Rect { top_left: self.position, size };
        let mut i: usize = 0;
        while i < count
            invariant
                i <= count,
                count == s.len(),
                self.views@ == s,
                arrange_fits(self.spacing, self.direction, self.secondary, self.position, s),
                size.width == measured_width(self.direction, self.secondary, s),
                size.height == measured_height(self.direction, self.secondary, s),
                primary_size == measured_primary(self.direction, s),
                placed@.len() == i,
                forall|j: int|
                    0 <= j < i ==> {
                        &&& (#[trigger] placed@[j]).size == s[j].size
                        &&& placed@[j].left() == placed_x(
                            self.spacing,
                            self.direction,
                            self.secondary,
                            self.position,
                            s,
                            j,
                        )
                        &&& placed@[j].top() == placed_y(
                            self.spacing,
                            self.direction,
                            self.secondary,
                            self.position,
                            s,
                            j,
                        )
                    },
                i == 0 ==> previous == (Rect { top_left: self.position, size }),
                i > 0 ==> previous == placed@[i as int - 1],
            decreases count - i,
        {
            let ghost ii = i as int;
            proof {
                assert(i32::MIN <= placed_x(
                    self.spacing,
                    self.direction,
                    self.secondary,
                    self.position,
                    s,
                    ii,
                ) <= i32::MAX);
                if i > 0 {
                    assert(i32::MIN <= placed_x(
                        self.spacing,
                        self.direction,
                        self.secondary,
                        self.position,
                        s,
                        ii - 1,
                    ) <= i32::MAX);
                }
            }
            let obj = self.views[i];
            let gap = self.spacing.placement_offset(i, count, primary_size);
            let dx: i32;
            let dy: i32;
            match self.direction {
                LayoutDirection::Horizontal => {
                    if i == 0 {
                        dx = axis_align(
                            AxisAlignment::Near,
                            obj.top_left.x,
                            obj.size.width,
                            previous.top_left.x,
                            previous.size.width,
                            gap,
                        );
                        let fm = first_alignment(self.secondary);
                        dy = axis_align(
                            fm,
                            obj.top_left.y,
                            obj.size.height,
                            previous.top_left.y,
                            previous.size.height,
                            0,
                        );
                    } else {
                        dx = axis_align(
                            AxisAlignment::NearToFar,
                            obj.top_left.x,
                            obj.size.width,
                            previous.top_left.x,
                            previous.size.width,
                            gap,
                        );
                        dy = axis_align(
                            self.secondary,
                            obj.top_left.y,
                            obj.size.height,
                            previous.top_left.y,
                            previous.size.height,
                            0,
                        );
                    }
                },
                LayoutDirection::Vertical => {
                    if i == 0 {
                        let fm = first_alignment(self.secondary);
                        dx = axis_align(
                            fm,
                            obj.top_left.x,
                            obj.size.width,
                            previous.top_left.x,
                            previous.size.width,
                            0,
                        );
                        dy = axis_align(
                            AxisAlignment::Near,
                            obj.top_left.y,
                            obj.size.height,
                            previous.top_left.y,
                            previous.size.height,
                            gap,
                        );
                    } else {
                        dx = axis_align(
                            self.secondary,
                            obj.top_left.x,
                            obj.size.width,
                            previous.top_left.x,
                            previous.size.width,
                            0,
                        );
                        dy = axis_align(
                            AxisAlignment::NearToFar,
                            obj.top_left.y,
                            obj.size.height,
                            previous.top_left.y,
                            previous.size.height,
                            gap,
                        );
                    }
                },
            }
            let moved = obj.translate(Point::new(dx, dy));
            placed.push(moved);
            previous = moved;
            i += 1;
        }
        LinearLayout {
            position: self.position,
            direction: self.direction,
            secondary: self.secondary,
            spacing: self.spacing,
            views: placed,
        }
    }

    /// The bounding rectangle of the layout: the smallest rectangle that
    /// envelopes every element, re-anchored at [`LinearLayout::position`].
    /// A layout without elements has an empty bounding rectangle.
    pub fn bounds(&self) -> (r: Rect)
        requires
            self.views@.len() > 0 ==> {
                &&& envelope_right(self.views@) - envelope_left(self.views@) + 1 <= u32::MAX
                &&& envelope_bottom(self.views@) - envelope_top(self.views@) + 1 <= u32::MAX
            },
        ensures
            r.top_left == self.position,
            r.width() == envelope_width(self.views@),
            r.height() == envelope_height(self.views@),
    {
        let envelope = ViewGroupHelper::bounds(&self.views);
        Rect { top_left: self.position, size: envelope.size }
    }

    /// The size of the layout's bounding rectangle.
    pub fn size(&self) -> (r: Size)
        requires
            self.views@.len() > 0 ==> {
                &&& envelope_right(self.views@) - envelope_left(self.views@) + 1 <= u32::MAX
                &&& envelope_bottom(self.views@) - envelope_top(self.views@) + 1 <= u32::MAX
            },
        ensures
            r.width == envelope_width(self.views@),
            r.height == envelope_height(self.views@),
    {
        let b = self.bounds();
        b.size
    }

    /// Move the whole layout: the anchor and every element are translated
    /// by the same vector.
    pub fn translate(self, by: Point) -> (r: LinearLayout<ES>)
        requires
            i32::MIN <= self.position.x + by.x <= i32::MAX,
            i32::MIN <= self.position.y + by.y <= i32::MAX,
            forall|i: int|
                0 <= i < self.views@.len() ==> {
                    &&& i32::MIN <= (#[trigger] self.views@[i]).left() + by.x <= i32::MAX
                    &&& i32::MIN <= self.views@[i].top() + by.y <= i32::MAX
                },
        ensures
            r.position.x == self.position.x + by.x,
            r.position.y == self.position.y + by.y,
            r.direction == self.direction,
            r.secondary == self.secondary,
            r.spacing == self.spacing,
            r.views@.len() == self.views@.len(),
            forall|i: int|
                0 <= i < self.views@.len() ==> {
                    &&& (#[trigger] r.views@[i]).left() == self.views@[i].left() + by.x
                    &&& r.views@[i].top() == self.views@[i].top() + by.y
                    &&& r.views@[i].size == self.views@[i].size
                },
    {
        let mut views = self.views;
        ViewGroupHelper::translate(&mut views, by);
        LinearLayout {
            position: Point { x: self.position.x + by.x, y: self.position.y + by.y },
            direction: self.direction,
            secondary: self.secondary,
            spacing: self.spacing,
            views,
        }
    }

    /// The layout's bounding rectangle as a specification value: the
    /// envelope size of the elements, re-anchored at the layout's position.
    /// Meaningful when the envelope size fits `u32`, which
    /// [`LinearLayout::bounds`] requires.
    pub open spec fn bounds_spec(self) -> Rect {
        Rect {
            top_left: self.position,
            size: Size {
                width: envelope_width(self.views@) as u32,
                height: envelope_height(self.views@) as u32,
            },
        }
    }

    /// Align the whole group to a reference rectangle: compute the
    /// alignment offsets of the layout's bounding rectangle against the
    /// reference and move the anchor and every element by them. This is the
    /// usual last step after arranging, for example against a display's
    /// bounding box. The reference is not modified, and the relative
    /// placement of the elements is kept.
    pub fn align_to<H: HorizontalAlignment, V: VerticalAlignment>(
        self,
        reference: &Rect,
        horizontal: H,
        vertical: V,
    ) -> (r: LinearLayout<ES>)
        requires
            self.views@.len() > 0 ==> {
                &&& envelope_right(self.views@) - envelope_left(self.views@) + 1 <= u32::MAX
                &&& envelope_bottom(self.views@) - envelope_top(self.views@) + 1 <= u32::MAX
            },
            i32::MIN <= H::offset_spec(self.bounds_spec(), *reference, 0) <= i32::MAX,
            i32::MIN <= V::offset_spec(self.bounds_spec(), *reference, 0) <= i32::MAX,
            i32::MIN <= self.position.x + H::offset_spec(self.bounds_spec(), *reference, 0)
                <= i32::MAX,
            i32::MIN <= self.position.y + V::offset_spec(self.bounds_spec(), *reference, 0)
                <= i32::MAX,
            forall|i: int|
                0 <= i < self.views@.len() ==> {
                    &&& i32::MIN <= (#[trigger] self.views@[i]).left() + H::offset_spec(
                        self.bounds_spec(),
                        *reference,
                        0,
                    ) <= i32::MAX
                    &&& i32::MIN <= self.views@[i].top() + V::offset_spec(
                        self.bounds_spec(),
                        *reference,
                        0,
                    ) <= i32::MAX
                },
        ensures
            r.position.x == self.position.x + H::offset_spec(self.bounds_spec(), *reference, 0),
            r.position.y == self.position.y + V::offset_spec(self.bounds_spec(), *reference, 0),
            r.direction == self.direction,
            r.secondary == self.secondary,
            r.spacing == self.spacing,
            r.views@.len() == self.views@.len(),
            forall|i: int|
                0 <= i < self.views@.len() ==> {
                    &&& (#[trigger] r.views@[i]).left() == self.views@[i].left() + H::offset_spec(
                        self.bounds_spec(),
                        *reference,
                        0,
                    )
                    &&& r.views@[i].top() == self.views@[i].top() + V::offset_spec(
                        self.bounds_spec(),
                        *reference,
                        0,
                    )
                    &&& r.views@[i].size == self.views@[i].size
                },
    {
        let b = self.bounds();
        proof {
            assert(b == self.bounds_spec());
        }
        let dx = horizontal.align_with_offset(b, *reference, 0);
        let dy = vertical.align_with_offset(b, *reference, 0);
        self.translate(Point::new(dx, dy))
    }
}

} // verus!
