//! Vertical alignment options.
//!
//! Each option is a unit struct implementing
//! [`Alignment`](crate::align::Alignment) on the vertical axis, together with
//! the [`VerticalAlignment`] marker. Smaller `y` coordinates are higher up on
//! the display, so "top" is the near edge and "bottom" the far edge. All
//! options except [`NoAlignment`] may also serve as the secondary alignment
//! of a horizontal linear layout.

use crate::align::{
    axis_align, axis_offset, Alignment, AxisAlignment, SecondaryAlignment, VerticalAlignment,
};
use crate::geometry::Rect;
use vstd::prelude::*;

verus! {

/// Keep the object's vertical position unchanged.
#[derive(Copy, Clone, Default)]
pub struct NoAlignment;

/// Center the object vertically on the reference.
///
/// Centers are the truncating center pixels of the two rectangles; on even
/// heights centering is asymmetric by one pixel.
#[derive(Copy, Clone, Default)]
pub struct Center;

/// Align the top edge of the object to the top edge of the reference.
#[derive(Copy, Clone, Default)]
pub struct Top;

/// Align the bottom edge of the object to the bottom edge of the reference.
#[derive(Copy, Clone, Default)]
pub struct Bottom;

/// Place the object just below the reference, non-overlapping.
#[derive(Copy, Clone, Default)]
pub struct TopToBottom;

/// Place the object just above the reference, non-overlapping.
#[derive(Copy, Clone, Default)]
pub struct BottomToTop;

/// The offset that vertical mode `mode` assigns to `object` relative to
/// `reference`.
pub open spec fn vertical_offset(
    mode: AxisAlignment,
    object: Rect,
    reference: Rect,
    extra: int,
) -> int {
    axis_offset(mode, object.top(), object.height(), reference.top(), reference.height(), extra)
}

impl VerticalAlignment for NoAlignment {

}

impl Alignment for NoAlignment {
    open spec fn offset_spec(object: Rect, reference: Rect, extra: int) -> int {
        vertical_offset(AxisAlignment::Keep, object, reference, extra)
    }

    fn align_with_offset(&self, object: Rect, reference: Rect, offset: i32) -> i32 {
        axis_align(
            AxisAlignment::Keep,
            object.top_left.y,
            object.size.height,
            reference.top_left.y,
            reference.size.height,
            offset,
        )
    }
}

impl VerticalAlignment for Center {

}

impl Alignment for Center {
    open spec fn offset_spec(object: Rect, reference: Rect, extra: int) -> int {
        vertical_offset(AxisAlignment::Center, object, reference, extra)
    }

    fn align_with_offset(&self, object: Rect, reference: Rect, offset: i32) -> i32 {
        axis_align(
            AxisAlignment::Center,
            object.top_left.y,
            object.size.height,
            reference.top_left.y,
            reference.size.height,
            offset,
        )
    }
}

impl SecondaryAlignment for Center {
    open spec fn secondary_mode_spec() -> AxisAlignment {
        AxisAlignment::Center
    }

    fn secondary_mode(&self) -> AxisAlignment {
        AxisAlignment::Center
    }
}

impl VerticalAlignment for Top {

}

impl Alignment for Top {
    open spec fn offset_spec(object: Rect, reference: Rect, extra: int) -> int {
        vertical_offset(AxisAlignment::Near, object, reference, extra)
    }

    fn align_with_offset(&self, object: Rect, reference: Rect, offset: i32) -> i32 {
        axis_align(
            AxisAlignment::Near,
            object.top_left.y,
            object.size.height,
            reference.top_left.y,
            reference.size.height,
            offset,
        )
    }
}

impl SecondaryAlignment for Top {
    open spec fn secondary_mode_spec() -> AxisAlignment {
        AxisAlignment::Near
    }

    fn secondary_mode(&self) -> AxisAlignment {
        AxisAlignment::Near
    }
}

impl VerticalAlignment for Bottom {

}

impl Alignment for Bottom {
    open spec fn offset_spec(object: Rect, reference: Rect, extra: int) -> int {
        vertical_offset(AxisAlignment::Far, object, reference, extra)
    }

    fn align_with_offset(&self, object: Rect, reference: Rect, offset: i32) -> i32 {
        axis_align(
            AxisAlignment::Far,
            object.top_left.y,
            object.size.height,
            reference.top_left.y,
            reference.size.height,
            offset,
        )
    }
}

impl SecondaryAlignment for Bottom {
    open spec fn secondary_mode_spec() -> AxisAlignment {
        AxisAlignment::Far
    }

    fn secondary_mode(&self) -> AxisAlignment {
        AxisAlignment::Far
    }
}

impl VerticalAlignment for TopToBottom {

}

impl Alignment for TopToBottom {
    open spec fn offset_spec(object: Rect, reference: Rect, extra: int) -> int {
        vertical_offset(AxisAlignment::NearToFar, object, reference, extra)
    }

    fn align_with_offset(&self, object: Rect, reference: Rect, offset: i32) -> i32 {
        axis_align(
            AxisAlignment::NearToFar,
            object.top_left.y,
            object.size.height,
            reference.top_left.y,
            reference.size.height,
            offset,
        )
    }
}

impl SecondaryAlignment for TopToBottom {
    open spec fn secondary_mode_spec() -> AxisAlignment {
        AxisAlignment::NearToFar
    }

    fn secondary_mode(&self) -> AxisAlignment {
        AxisAlignment::NearToFar
    }
}

impl VerticalAlignment for BottomToTop {

}

impl Alignment for BottomToTop {
    open spec fn offset_spec(object: Rect, reference: Rect, extra: int) -> int {
        vertical_offset(AxisAlignment::FarToNear, object, reference, extra)
    }

    fn align_with_offset(&self, object: Rect, reference: Rect, offset: i32) -> i32 {
        axis_align(
            AxisAlignment::FarToNear,
            object.top_left.y,
            object.size.height,
            reference.top_left.y,
            reference.size.height,
            offset,
        )
    }
}

impl SecondaryAlignment for BottomToTop {
    open spec fn secondary_mode_spec() -> AxisAlignment {
        AxisAlignment::FarToNear
    }

    fn secondary_mode(&self) -> AxisAlignment {
        AxisAlignment::FarToNear
    }
}

} // verus!
