//! Secondary-axis measurement: the fold rules that combine element sizes
//! into the measured size of a linear layout.
//!
//! The primary axis of a layout always accumulates by sum. The secondary
//! axis accumulates by maximum for stacking secondary alignments and by sum
//! for cascading ones, so that the one engine supports both neatly stacked
//! and staircase layouts. Both folds are associative and commutative, so the
//! order of the fold does not affect the result.

use crate::align::AxisAlignment;
use crate::geometry::{max_int, Rect, Size};
use vstd::prelude::*;

verus! {

/// True for the cascading modes, which advance along their axis; false for
/// the stacking modes and for the pass-through mode.
pub open spec fn is_cascading(mode: AxisAlignment) -> bool {
    mode == AxisAlignment::NearToFar || mode == AxisAlignment::FarToNear
}

/// The mode that aligns the first element of a layout whose secondary
/// alignment is `mode`: a cascading mode starts from its originating edge,
/// every other mode aligns the first element like the rest.
pub open spec fn first_mode(mode: AxisAlignment) -> AxisAlignment {
    match mode {
        AxisAlignment::NearToFar => AxisAlignment::Near,
        AxisAlignment::FarToNear => AxisAlignment::Far,
        m => m,
    }
}

/// Runtime counterpart of [`first_mode`].
pub fn first_alignment(mode: AxisAlignment) -> (m: AxisAlignment)
    ensures
        m == first_mode(mode),
{
    match mode {
        AxisAlignment::NearToFar => AxisAlignment::Near,
        AxisAlignment::FarToNear => AxisAlignment::Far,
        m => m,
    }
}

/// The sum of the widths of all rectangles in `s`.
pub open spec fn sum_widths(s: Seq<Rect>) -> int
    decreases s.len(),
{
    if s.len() == 0 {
        0
    } else {
        sum_widths(s.drop_last()) + s.last().width()
    }
}

/// The sum of the heights of all rectangles in `s`.
pub open spec fn sum_heights(s: Seq<Rect>) -> int
    decreases s.len(),
{
    if s.len() == 0 {
        0
    } else {
        sum_heights(s.drop_last()) + s.last().height()
    }
}

/// The largest width of any rectangle in `s`; zero for an empty sequence.
pub open spec fn max_of_widths(s: Seq<Rect>) -> int
    decreases s.len(),
{
    if s.len() == 0 {
        0
    } else {
        max_int(max_of_widths(s.drop_last()), s.last().width())
    }
}

/// The largest height of any rectangle in `s`; zero for an empty sequence.
pub open spec fn max_of_heights(s: Seq<Rect>) -> int
    decreases s.len(),
{
    if s.len() == 0 {
        0
    } else {
        max_int(max_of_heights(s.drop_last()), s.last().height())
    }
}

/// Fold rule of a vertical layout with a stacking secondary alignment:
/// widths accumulate by maximum, heights by sum.
pub fn max_width(prev_size: Size, view_size: Size) -> (r: Size)
    requires
        prev_size.height + view_size.height <= u32::MAX,
    ensures
        r.width == max_int(prev_size.width as int, view_size.width as int),
        r.height == prev_size.height + view_size.height,
{
    Size {
        width: if prev_size.width >= view_size.width {
            prev_size.width
        } else {
            view_size.width
        },
        height: prev_size.height + view_size.height,
    }
}

/// Fold rule of a horizontal layout with a stacking secondary alignment:
/// widths accumulate by sum, heights by maximum.
pub fn max_height(prev_size: Size, view_size: Size) -> (r: Size)
    requires
        prev_size.width + view_size.width <= u32::MAX,
    ensures
        r.width == prev_size.width + view_size.width,
        r.height == max_int(prev_size.height as int, view_size.height as int),
{
    Size {
        width: prev_size.width + view_size.width,
        height: if prev_size.height >= view_size.height {
            prev_size.height
        } else {
            view_size.height
        },
    }
}

/// Fold rule of a layout with a cascading secondary alignment: both axes
/// accumulate by sum, because cascading placement advances along the
/// secondary axis as well.
pub fn cascading(prev_size: Size, view_size: Size) -> (r: Size)
    requires
        prev_size.width + view_size.width <= u32::MAX,
        prev_size.height + view_size.height <= u32::MAX,
    ensures
        r.width == prev_size.width + view_size.width,
        r.height == prev_size.height + view_size.height,
{
    Size {
        width: prev_size.width + view_size.width,
        height: prev_size.height + view_size.height,
    }
}

/// The width sum of a prefix never exceeds the width sum of the whole
/// sequence, and likewise for heights and for the maxima.
pub proof fn lemma_prefix_measures_bounded(s: Seq<Rect>, i: int)
    requires
        0 <= i <= s.len(),
    ensures
        0 <= sum_widths(s.take(i)) <= sum_widths(s),
        0 <= sum_heights(s.take(i)) <= sum_heights(s),
        0 <= max_of_widths(s.take(i)) <= max_of_widths(s),
        0 <= max_of_heights(s.take(i)) <= max_of_heights(s),
    decreases s.len(),
{
    if s.len() == 0 {
        assert(s.take(i) =~= s);
    } else if i == s.len() {
        assert(s.take(i) =~= s);
        lemma_prefix_measures_bounded(s.drop_last(), i - 1);
    } else {
        assert(s.take(i) =~= s.drop_last().take(i));
        lemma_prefix_measures_bounded(s.drop_last(), i);
    }
}

/// Extending a prefix by one element extends its measures by that element.
pub proof fn lemma_prefix_measures_step(s: Seq<Rect>, i: int)
    requires
        0 <= i < s.len(),
    ensures
        sum_widths(s.take(i + 1)) == sum_widths(s.take(i)) + s[i].width(),
        sum_heights(s.take(i + 1)) == sum_heights(s.take(i)) + s[i].height(),
        max_of_widths(s.take(i + 1)) == max_int(max_of_widths(s.take(i)), s[i].width()),
        max_of_heights(s.take(i + 1)) == max_int(max_of_heights(s.take(i)), s[i].height()),
{
    assert(s.take(i + 1).drop_last() =~= s.take(i));
    assert(s.take(i + 1).last() == s[i]);
}

/// The maximum width or height over a sequence stays within any bound that
/// every element respects.
pub proof fn lemma_max_of_bounded(s: Seq<Rect>, bound: int)
    requires
        bound >= 0,
        forall|i: int|
            0 <= i < s.len() ==> (#[trigger] s[i]).width() <= bound && s[i].height() <= bound,
    ensures
        0 <= max_of_widths(s) <= bound,
        0 <= max_of_heights(s) <= bound,
    decreases s.len(),
{
    if s.len() > 0 {
        lemma_max_of_bounded(s.drop_last(), bound);
        assert(s.last() == s[s.len() - 1]);
    }
}

/// Law: measurement is translation invariant. The measured size of a layout
/// depends only on the sizes of its elements, so translating every element
/// before construction leaves every measure unchanged.
pub proof fn lemma_measure_translation_invariant(s: Seq<Rect>, t: Seq<Rect>)
    requires
        s.len() == t.len(),
        forall|i: int| 0 <= i < s.len() ==> #[trigger] t[i].size == s[i].size,
    ensures
        sum_widths(t) == sum_widths(s),
        sum_heights(t) == sum_heights(s),
        max_of_widths(t) == max_of_widths(s),
        max_of_heights(t) == max_of_heights(s),
    decreases s.len(),
{
    if s.len() > 0 {
        lemma_measure_translation_invariant(s.drop_last(), t.drop_last());
        assert(t.last().size == s.last().size);
    }
}

} // verus!
