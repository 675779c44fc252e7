//! Alignment primitives.
//!
//! An alignment computes the signed pixel offset that moves an object
//! rectangle into a chosen relationship with a reference rectangle along one
//! axis. The reference is never modified. Both axes share one closed set of
//! modes, [`AxisAlignment`]; the [`crate::horizontal`] and [`crate::vertical`]
//! modules expose them as named unit structs on their respective axes.
//!
//! Modes split in two families:
//!
//! - *stacking* modes (`Near`, `Center`, `Far`) align corresponding edges or
//!   centers and permit overlap;
//! - *cascading* modes (`NearToFar`, `FarToNear`) place the object's near
//!   edge exactly one pixel beyond the reference's far edge (or mirrored), so
//!   the two rectangles never overlap. An object that is empty along the axis
//!   attaches directly at the reference's far edge, without the one pixel gap.

use crate::geometry::{far_edge, Point, Rect};
use vstd::prelude::*;

verus! {

/// The closed set of alignment modes of one axis.
///
/// On the horizontal axis "near" is the left edge and "far" the right edge;
/// on the vertical axis "near" is the top edge (smaller coordinates are
/// higher up on a display) and "far" the bottom edge.
#[derive(Clone, Copy, PartialEq, Eq, Structural, Debug)]
pub enum AxisAlignment {
    /// No positional constraint: the offset is the extra offset unchanged.
    Keep,
    /// Align the near edges.
    Near,
    /// Align the center pixels.
    Center,
    /// Align the far edges.
    Far,
    /// Place the object's near edge one pixel beyond the reference's far
    /// edge (cascading, non-overlapping).
    NearToFar,
    /// Place the object's far edge one pixel before the reference's near
    /// edge (cascading, non-overlapping).
    FarToNear,
}

/// The signed offset that `mode` assigns to an object span
/// (`obj_near`, `obj_size`) relative to a reference span
/// (`ref_near`, `ref_size`), plus the extra offset.
pub open spec fn axis_offset(
    mode: AxisAlignment,
    obj_near: int,
    obj_size: int,
    ref_near: int,
    ref_size: int,
    extra: int,
) -> int {
    match mode {
        AxisAlignment::Keep => extra,
        AxisAlignment::Near => ref_near - obj_near + extra,
        AxisAlignment::Center => (ref_near + ref_size / 2) - (obj_near + obj_size / 2) + extra,
        AxisAlignment::Far => far_edge(ref_near, ref_size) - far_edge(obj_near, obj_size) + extra,
        AxisAlignment::NearToFar => if obj_size == 0 {
            far_edge(ref_near, ref_size) - obj_near + extra
        } else {
            (far_edge(ref_near, ref_size) + 1) - obj_near + extra
        },
        AxisAlignment::FarToNear => if obj_size == 0 {
            ref_near - far_edge(obj_near, obj_size) + extra
        } else {
            (ref_near - 1) - far_edge(obj_near, obj_size) + extra
        },
    }
}

/// Compute the alignment offset of one axis.
pub fn axis_align(
    mode: AxisAlignment,
    obj_near: i32,
    obj_size: u32,
    ref_near: i32,
    ref_size: u32,
    extra: i32,
) -> (r: i32)
    requires
        i32::MIN <= axis_offset(
            mode,
            obj_near as int,
            obj_size as int,
            ref_near as int,
            ref_size as int,
            extra as int,
        ) <= i32::MAX,
    ensures
        r as int == axis_offset(
            mode,
            obj_near as int,
            obj_size as int,
            ref_near as int,
            ref_size as int,
            extra as int,
        ),
{
    let obj_far: i64 = if obj_size == 0 {
        obj_near as i64
    } else {
        obj_near as i64 + obj_size as i64 - 1
    };
    let ref_far: i64 = if ref_size == 0 {
        ref_near as i64
    } else {
        ref_near as i64 + ref_size as i64 - 1
    };
    let wide: i64 = match mode {
        AxisAlignment::Keep => extra as i64,
        AxisAlignment::Near => ref_near as i64 - obj_near as i64 + extra as i64,
        AxisAlignment::Center => {
            (ref_near as i64 + (ref_size / 2) as i64) - (obj_near as i64 + (obj_size / 2) as i64)
                + extra as i64
        },
        AxisAlignment::Far => ref_far - obj_far + extra as i64,
        AxisAlignment::NearToFar => {
            let gap: i64 = if obj_size == 0 {
                0
            } else {
                1
            };
            ref_far + gap - obj_near as i64 + extra as i64
        },
        AxisAlignment::FarToNear => {
            let gap: i64 = if obj_size == 0 {
                0
            } else {
                1
            };
            ref_near as i64 - gap - obj_far + extra as i64
        },
    };
    wide as i32
}

/// An alignment operation along one fixed axis of a rectangle.
///
/// `offset_spec` states, per implementor, which offset the operation
/// computes; `align_with_offset` is proved to return exactly that value.
pub trait Alignment: Sized {
    /// The offset this alignment assigns to `object` relative to
    /// `reference`, plus the extra offset.
    spec fn offset_spec(object: Rect, reference: Rect, extra: int) -> int;

    /// Compute the offset that aligns `object` to `reference`, with an
    /// extra offset added on top.
    fn align_with_offset(&self, object: Rect, reference: Rect, offset: i32) -> (r: i32)
        requires
            i32::MIN <= Self::offset_spec(object, reference, offset as int) <= i32::MAX,
        ensures
            r as int == Self::offset_spec(object, reference, offset as int),
    ;
}

/// Marker for alignments that act on the horizontal axis.
pub trait HorizontalAlignment: Alignment {

}

/// Marker for alignments that act on the vertical axis.
///
/// Vertical alignment assumes lower coordinate values are higher up on the
/// display.
pub trait VerticalAlignment: Alignment {

}

/// An alignment that may govern the secondary axis of a linear layout.
///
/// A secondary alignment carries its [`AxisAlignment`] mode as a runtime
/// value, so a layout can store it next to its other parameters.
pub trait SecondaryAlignment: Alignment {
    /// The axis-generic mode of this alignment.
    spec fn secondary_mode_spec() -> AxisAlignment;

    /// The axis-generic mode of this alignment, as a value.
    fn secondary_mode(&self) -> (m: AxisAlignment)
        ensures
            m == Self::secondary_mode_spec(),
            m != AxisAlignment::Keep,
    ;
}

impl Rect {
    /// Return this rectangle aligned to `reference` using the given
    /// horizontal and vertical alignment rules. The reference is not
    /// modified, and the size of the result equals the size of `self`.
    pub fn align_to<H: HorizontalAlignment, V: VerticalAlignment>(
        &self,
        reference: &Rect,
        horizontal: H,
        vertical: V,
    ) -> (r: Rect)
        requires
            i32::MIN <= H::offset_spec(*self, *reference, 0) <= i32::MAX,
            i32::MIN <= V::offset_spec(*self, *reference, 0) <= i32::MAX,
            i32::MIN <= self.left() + H::offset_spec(*self, *reference, 0) <= i32::MAX,
            i32::MIN <= self.top() + V::offset_spec(*self, *reference, 0) <= i32::MAX,
        ensures
            r.size == self.size,
            r.left() == self.left() + H::offset_spec(*self, *reference, 0),
            r.top() == self.top() + V::offset_spec(*self, *reference, 0),
    {
        let dx = horizontal.align_with_offset(*self, *reference, 0);
        let dy = vertical.align_with_offset(*self, *reference, 0);
        self.translate(Point::new(dx, dy))
    }
}

/// Law: re-alignment is idempotent. Translating a rectangle span by the
/// offset an alignment computes, and then aligning the translated span to
/// the same reference with the same mode, yields offset zero.
pub proof fn lemma_realign_offset_zero(
    mode: AxisAlignment,
    obj_near: int,
    obj_size: int,
    ref_near: int,
    ref_size: int,
)
    ensures
        ({
            let d = axis_offset(mode, obj_near, obj_size, ref_near, ref_size, 0);
            axis_offset(mode, obj_near + d, obj_size, ref_near, ref_size, 0) == 0
        }),
{
}

/// Law: alignment reads its two inputs and nothing else, and never changes
/// the reference. Near-aligning `a` to `b` and far-aligning `b` to `a` are
/// therefore independent: each offset is determined by the original pair.
pub proof fn lemma_align_independent(a: Rect, b: Rect)
    ensures
        axis_offset(AxisAlignment::Near, a.left(), a.width(), b.left(), b.width(), 0) == b.left()
            - a.left(),
        axis_offset(AxisAlignment::Far, b.left(), b.width(), a.left(), a.width(), 0) == a.right()
            - b.right(),
{
}

/// Law: cascading placement is adjacent and non-overlapping. For an object
/// that is not empty along the axis, `NearToFar` puts the object's near edge
/// exactly one pixel past the reference's far edge, and `FarToNear` puts the
/// object's far edge exactly one pixel before the reference's near edge. An
/// empty object attaches directly at the respective reference edge.
pub proof fn lemma_cascading_adjacent(obj_near: int, obj_size: int, ref_near: int, ref_size: int)
    requires
        obj_size >= 0,
    ensures
        obj_size > 0 ==> obj_near + axis_offset(
            AxisAlignment::NearToFar,
            obj_near,
            obj_size,
            ref_near,
            ref_size,
            0,
        ) == far_edge(ref_near, ref_size) + 1,
        obj_size == 0 ==> obj_near + axis_offset(
            AxisAlignment::NearToFar,
            obj_near,
            obj_size,
            ref_near,
            ref_size,
            0,
        ) == far_edge(ref_near, ref_size),
        obj_size > 0 ==> far_edge(
            obj_near + axis_offset(
                AxisAlignment::FarToNear,
                obj_near,
                obj_size,
                ref_near,
                ref_size,
                0,
            ),
            obj_size,
        ) == ref_near - 1,
        obj_size == 0 ==> obj_near + axis_offset(
            AxisAlignment::FarToNear,
            obj_near,
            obj_size,
            ref_near,
            ref_size,
            0,
        ) == ref_near,
{
}

} // verus!
