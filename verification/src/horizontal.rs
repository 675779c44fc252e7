//! Horizontal alignment options.
//!
//! Each option is a unit struct implementing
//! [`Alignment`](crate::align::Alignment) on the horizontal axis, together
//! with the [`HorizontalAlignment`] marker. All options except
//! [`NoAlignment`] may also serve as the secondary alignment of a vertical
//! linear layout.

use crate::align::{
    axis_align, axis_offset, Alignment, AxisAlignment, HorizontalAlignment, SecondaryAlignment,
};
use crate::geometry::Rect;
use vstd::prelude::*;

verus! {

/// Keep the object's horizontal position unchanged.
#[derive(Copy, Clone, Default)]
pub struct NoAlignment;

/// Center the object horizontally on the reference.
///
/// Centers are the truncating center pixels of the two rectangles; on even
/// widths centering is asymmetric by one pixel.
#[derive(Copy, Clone, Default)]
pub struct Center;

/// Align the left edge of the object to the left edge of the reference.
#[derive(Copy, Clone, Default)]
pub struct Left;

/// Align the right edge of the object to the right edge of the reference.
#[derive(Copy, Clone, Default)]
pub struct Right;

/// Place the object just right of the reference, non-overlapping.
#[derive(Copy, Clone, Default)]
pub struct LeftToRight;

/// Place the object just left of the reference, non-overlapping.
#[derive(Copy, Clone, Default)]
pub struct RightToLeft;

/// The offset that horizontal mode `mode` assigns to `object` relative to
/// `reference`.
pub open spec fn horizontal_offset(
    mode: AxisAlignment,
    object: Rect,
    reference: Rect,
    extra: int,
) -> int {
    axis_offset(mode, object.left(), object.width(), reference.left(), reference.width(), extra)
}

impl HorizontalAlignment for NoAlignment {

}

impl Alignment for NoAlignment {
    open spec fn offset_spec(object: Rect, reference: Rect, extra: int) -> int {
        horizontal_offset(AxisAlignment::Keep, object, reference, extra)
    }

    fn align_with_offset(&self, object: Rect, reference: Rect, offset: i32) -> i32 {
        axis_align(
            AxisAlignment::Keep,
            object.top_left.x,
            object.size.width,
            reference.top_left.x,
            reference.size.width,
            offset,
        )
    }
}

impl HorizontalAlignment for Center {

}

impl Alignment for Center {
    open spec fn offset_spec(object: Rect, reference: Rect, extra: int) -> int {
        horizontal_offset(AxisAlignment::Center, object, reference, extra)
    }

    fn align_with_offset(&self, object: Rect, reference: Rect, offset: i32) -> i32 {
        axis_align(
            AxisAlignment::Center,
            object.top_left.x,
            object.size.width,
            reference.top_left.x,
            reference.size.width,
            offset,
        )
    }
}

impl SecondaryAlignment for Center {
    open spec fn secondary_mode_spec() -> AxisAlignment {
        AxisAlignment::Center
    }

    fn secondary_mode(&self) -> AxisAlignment {
        AxisAlignment::Center
    }
}

impl HorizontalAlignment for Left {

}

impl Alignment for Left {
    open spec fn offset_spec(object: Rect, reference: Rect, extra: int) -> int {
        horizontal_offset(AxisAlignment::Near, object, reference, extra)
    }

    fn align_with_offset(&self, object: Rect, reference: Rect, offset: i32) -> i32 {
        axis_align(
            AxisAlignment::Near,
            object.top_left.x,
            object.size.width,
            reference.top_left.x,
            reference.size.width,
            offset,
        )
    }
}

impl SecondaryAlignment for Left {
    open spec fn secondary_mode_spec() -> AxisAlignment {
        AxisAlignment::Near
    }

    fn secondary_mode(&self) -> AxisAlignment {
        AxisAlignment::Near
    }
}

impl HorizontalAlignment for Right {

}

impl Alignment for Right {
    open spec fn offset_spec(object: Rect, reference: Rect, extra: int) -> int {
        horizontal_offset(AxisAlignment::Far, object, reference, extra)
    }

    fn align_with_offset(&self, object: Rect, reference: Rect, offset: i32) -> i32 {
        axis_align(
            AxisAlignment::Far,
            object.top_left.x,
            object.size.width,
            reference.top_left.x,
            reference.size.width,
            offset,
        )
    }
}

impl SecondaryAlignment for Right {
    open spec fn secondary_mode_spec() -> AxisAlignment {
        AxisAlignment::Far
    }

    fn secondary_mode(&self) -> AxisAlignment {
        AxisAlignment::Far
    }
}

impl HorizontalAlignment for LeftToRight {

}

impl Alignment for LeftToRight {
    open spec fn offset_spec(object: Rect, reference: Rect, extra: int) -> int {
        horizontal_offset(AxisAlignment::NearToFar, object, reference, extra)
    }

    fn align_with_offset(&self, object: Rect, reference: Rect, offset: i32) -> i32 {
        axis_align(
            AxisAlignment::NearToFar,
            object.top_left.x,
            object.size.width,
            reference.top_left.x,
            reference.size.width,
            offset,
        )
    }
}

impl SecondaryAlignment for LeftToRight {
    open spec fn secondary_mode_spec() -> AxisAlignment {
        AxisAlignment::NearToFar
    }

    fn secondary_mode(&self) -> AxisAlignment {
        AxisAlignment::NearToFar
    }
}

impl HorizontalAlignment for RightToLeft {

}

impl Alignment for RightToLeft {
    open spec fn offset_spec(object: Rect, reference: Rect, extra: int) -> int {
        horizontal_offset(AxisAlignment::FarToNear, object, reference, extra)
    }

    fn align_with_offset(&self, object: Rect, reference: Rect, offset: i32) -> i32 {
        axis_align(
            AxisAlignment::FarToNear,
            object.top_left.x,
            object.size.width,
            reference.top_left.x,
            reference.size.width,
            offset,
        )
    }
}

impl SecondaryAlignment for RightToLeft {
    open spec fn secondary_mode_spec() -> AxisAlignment {
        AxisAlignment::FarToNear
    }

    fn secondary_mode(&self) -> AxisAlignment {
        AxisAlignment::FarToNear
    }
}

} // verus!
