//! Conservative input budgets under which an arrangement always fits.
//!
//! [`crate::linear_layout::LinearLayout::arrange`] asks for
//! [`arrange_fits`]: the exact conditions under which every measured size
//! fits `u32` and every final position fits `i32`. Those conditions follow
//! the recursion of the placement itself, so this module proves them once
//! and for all from simple per-input bounds: when every coordinate, size
//! sum, element count and spacing quantity stays within a generous fixed
//! pixel budget, the whole arrangement stays within the machine integer
//! types. Display layouts are far below the budget, so a caller discharges
//! the precondition with one lemma call.

use crate::align::AxisAlignment;
use crate::geometry::{Point, Rect};
use crate::linear_layout::{
    arrange_fits, measured_height, measured_primary, measured_width, placed_x, placed_y,
    LayoutDirection,
};
use crate::measure::{
    lemma_max_of_bounded, lemma_prefix_measures_bounded, lemma_prefix_measures_step, sum_heights,
    sum_widths,
};
use crate::view_group::{envelope_bottom, envelope_left, envelope_right, envelope_top, lemma_envelope_bounded};
use crate::spacing::{
    div_trunc, gap_prefix_sum, rem_trunc, DistributeFill, ElementSpacing, FixedMargin, Tight,
};
use vstd::arithmetic::div_mod::{lemma_div_nonincreasing, lemma_fundamental_div_mod};
use vstd::prelude::*;

verus! {

/// The pixel budget: coordinates, counts and size sums up to `2^27`
/// pixels are guaranteed to arrange without reaching any machine limit.
pub open spec fn budget() -> int {
    0x800_0000
}

/// Every element coordinate and size, the element count and the total
/// sizes stay within the budget.
pub open spec fn views_in_budget(s: Seq<Rect>) -> bool {
    &&& s.len() <= budget()
    &&& forall|i: int|
        0 <= i < s.len() ==> {
            &&& -budget() <= (#[trigger] s[i]).left() <= budget()
            &&& -budget() <= s[i].top() <= budget()
            &&& s[i].width() <= budget()
            &&& s[i].height() <= budget()
        }
    &&& sum_widths(s) <= budget()
    &&& sum_heights(s) <= budget()
}

/// The layout anchor stays within the budget.
pub open spec fn origin_in_budget(origin: Point) -> bool {
    &&& -budget() <= origin.x <= budget()
    &&& -budget() <= origin.y <= budget()
}

/// The spacing policy stays within the budget: the first element gets no
/// extra offset, each single gap offset and each prefix sum of gap offsets
/// stays within three budgets.
pub open spec fn spacing_in_budget<ES: ElementSpacing>(
    spacing: ES,
    count: int,
    measured: int,
) -> bool {
    &&& count > 0 ==> spacing.offset_spec(0, count, measured) == 0
    &&& forall|k: int|
        1 <= k < count ==> -3 * budget() <= #[trigger] spacing.offset_spec(k, count, measured)
            <= 3 * budget()
    &&& forall|k: int|
        0 <= k < count ==> -3 * budget() <= #[trigger] gap_prefix_sum(spacing, k, count, measured)
            <= 3 * budget()
}

/// All inputs of an arrangement stay within the budget.
pub open spec fn arrange_in_budget<ES: ElementSpacing>(
    spacing: ES,
    direction: LayoutDirection,
    origin: Point,
    s: Seq<Rect>,
) -> bool {
    &&& origin_in_budget(origin)
    &&& views_in_budget(s)
    &&& spacing_in_budget(spacing, s.len() as int, measured_primary(direction, s))
}

/// The measured sizes of budgeted views are between zero and the budget.
proof fn lemma_measured_in_budget(direction: LayoutDirection, secondary: AxisAlignment, s: Seq<Rect>)
    requires
        views_in_budget(s),
    ensures
        0 <= measured_width(direction, secondary, s) <= budget(),
        0 <= measured_height(direction, secondary, s) <= budget(),
        0 <= measured_primary(direction, s) <= budget(),
    decreases s.len(),
{
    lemma_max_of_bounded(s, budget());
    lemma_prefix_measures_bounded(s, s.len() as int);
    assert(s.take(s.len() as int) =~= s);
}

/// Budgeted inputs keep every final left edge within a few budgets: on the
/// primary axis between the anchor plus the accumulated gaps and the anchor
/// plus everything placed so far, on the secondary axis within two budgets
/// of drift plus the sizes crossed so far.
proof fn lemma_placed_x_in_budget<ES: ElementSpacing>(
    spacing: ES,
    direction: LayoutDirection,
    secondary: AxisAlignment,
    origin: Point,
    s: Seq<Rect>,
    i: int,
)
    requires
        arrange_in_budget(spacing, direction, origin, s),
        0 <= i < s.len(),
    ensures
        direction == LayoutDirection::Horizontal ==> origin.x + gap_prefix_sum(
            spacing,
            i,
            s.len() as int,
            measured_primary(direction, s),
        ) <= placed_x(spacing, direction, secondary, origin, s, i) <= origin.x + sum_widths(
            s.take(i),
        ) + i + gap_prefix_sum(spacing, i, s.len() as int, measured_primary(direction, s)),
        direction == LayoutDirection::Vertical ==> -(2 * budget() + sum_widths(s.take(i))
            + sum_widths(s.take(i + 1)) + i) <= placed_x(spacing, direction, secondary, origin, s, i)
            <= 2 * budget() + sum_widths(s.take(i)) + sum_widths(s.take(i + 1)) + i,
    decreases i,
{
    let count = s.len() as int;
    let mp = measured_primary(direction, s);
    lemma_measured_in_budget(direction, secondary, s);
    lemma_prefix_measures_bounded(s, i);
    lemma_prefix_measures_bounded(s, i + 1);
    if i == 0 {
        assert(s.take(0int) =~= Seq::<Rect>::empty());
        lemma_prefix_measures_step(s, 0);
    } else {
        lemma_placed_x_in_budget(spacing, direction, secondary, origin, s, i - 1);
        lemma_prefix_measures_step(s, i);
        lemma_prefix_measures_step(s, i - 1);
    }
}

/// The vertical counterpart of [`lemma_placed_x_in_budget`].
proof fn lemma_placed_y_in_budget<ES: ElementSpacing>(
    spacing: ES,
    direction: LayoutDirection,
    secondary: AxisAlignment,
    origin: Point,
    s: Seq<Rect>,
    i: int,
)
    requires
        arrange_in_budget(spacing, direction, origin, s),
        0 <= i < s.len(),
    ensures
        direction == LayoutDirection::Vertical ==> origin.y + gap_prefix_sum(
            spacing,
            i,
            s.len() as int,
            measured_primary(direction, s),
        ) <= placed_y(spacing, direction, secondary, origin, s, i) <= origin.y + sum_heights(
            s.take(i),
        ) + i + gap_prefix_sum(spacing, i, s.len() as int, measured_primary(direction, s)),
        direction == LayoutDirection::Horizontal ==> -(2 * budget() + sum_heights(s.take(i))
            + sum_heights(s.take(i + 1)) + i) <= placed_y(spacing, direction, secondary, origin, s, i)
            <= 2 * budget() + sum_heights(s.take(i)) + sum_heights(s.take(i + 1)) + i,
    decreases i,
{
    let count = s.len() as int;
    let mp = measured_primary(direction, s);
    lemma_measured_in_budget(direction, secondary, s);
    lemma_prefix_measures_bounded(s, i);
    lemma_prefix_measures_bounded(s, i + 1);
    if i == 0 {
        assert(s.take(0int) =~= Seq::<Rect>::empty());
        lemma_prefix_measures_step(s, 0);
    } else {
        lemma_placed_y_in_budget(spacing, direction, secondary, origin, s, i - 1);
        lemma_prefix_measures_step(s, i);
        lemma_prefix_measures_step(s, i - 1);
    }
}

/// Law: the arrangement is total on budgeted inputs. Whenever anchor,
/// elements and spacing stay within the pixel budget, every measured size
/// fits `u32` and every final position and translation fits `i32`, so
/// [`crate::linear_layout::LinearLayout::arrange`] accepts the layout.
pub proof fn lemma_budget_arrange_fits<ES: ElementSpacing>(
    spacing: ES,
    direction: LayoutDirection,
    secondary: AxisAlignment,
    origin: Point,
    s: Seq<Rect>,
)
    requires
        arrange_in_budget(spacing, direction, origin, s),
    ensures
        arrange_fits(spacing, direction, secondary, origin, s),
{
    let count = s.len() as int;
    let mp = measured_primary(direction, s);
    lemma_measured_in_budget(direction, secondary, s);
    assert forall|i: int| 0 <= i < count implies {
        &&& i32::MIN <= spacing.offset_spec(i, count, mp) <= i32::MAX
        &&& i32::MIN <= #[trigger] placed_x(spacing, direction, secondary, origin, s, i) <= i32::MAX
        &&& i32::MIN <= placed_y(spacing, direction, secondary, origin, s, i) <= i32::MAX
        &&& i32::MIN <= placed_x(spacing, direction, secondary, origin, s, i) - s[i].left()
            <= i32::MAX
        &&& i32::MIN <= placed_y(spacing, direction, secondary, origin, s, i) - s[i].top()
            <= i32::MAX
    } by {
        lemma_placed_x_in_budget(spacing, direction, secondary, origin, s, i);
        lemma_placed_y_in_budget(spacing, direction, secondary, origin, s, i);
        lemma_prefix_measures_bounded(s, i);
        lemma_prefix_measures_bounded(s, i + 1);
    }
}

/// Law: the bounding rectangle of a budgeted arrangement fits too. For any
/// sequence `t` of rectangles that sit at the arranged positions of
/// budgeted inputs `s` with unchanged sizes — which is what
/// [`crate::linear_layout::LinearLayout::arrange`] returns — the envelope
/// stays within `u32` sizes, so the bounds and size accessors accept it.
pub proof fn lemma_budget_envelope_fits<ES: ElementSpacing>(
    spacing: ES,
    direction: LayoutDirection,
    secondary: AxisAlignment,
    origin: Point,
    s: Seq<Rect>,
    t: Seq<Rect>,
)
    requires
        arrange_in_budget(spacing, direction, origin, s),
        t.len() == s.len(),
        t.len() > 0,
        forall|i: int|
            0 <= i < t.len() ==> {
                &&& (#[trigger] t[i]).left() == placed_x(spacing, direction, secondary, origin, s, i)
                &&& t[i].top() == placed_y(spacing, direction, secondary, origin, s, i)
                &&& t[i].size == s[i].size
            },
    ensures
        envelope_right(t) - envelope_left(t) + 1 <= u32::MAX,
        envelope_bottom(t) - envelope_top(t) + 1 <= u32::MAX,
{
    assert forall|i: int| 0 <= i < t.len() implies {
        &&& -(6 * budget()) <= (#[trigger] t[i]).left()
        &&& t[i].right() <= 7 * budget()
        &&& -(6 * budget()) <= t[i].top()
        &&& t[i].bottom() <= 7 * budget()
    } by {
        lemma_placed_x_in_budget(spacing, direction, secondary, origin, s, i);
        lemma_placed_y_in_budget(spacing, direction, secondary, origin, s, i);
        lemma_prefix_measures_bounded(s, i);
        lemma_prefix_measures_bounded(s, i + 1);
    }
    lemma_envelope_bounded(t, -(6 * budget()), 7 * budget(), -(6 * budget()), 7 * budget());
}

/// Tight spacing never adds an offset, so it stays within any budget.
pub proof fn lemma_tight_in_budget(count: int, measured: int)
    ensures
        spacing_in_budget(Tight, count, measured),
{
    assert forall|j: int| 0 <= j < count implies -3 * budget() <= #[trigger] gap_prefix_sum(
        Tight,
        j,
        count,
        measured,
    ) <= 3 * budget() by {
        lemma_tight_gap_zero(count, measured, j);
    }
}

/// The gap prefix sums of tight spacing are all zero.
proof fn lemma_tight_gap_zero(count: int, measured: int, k: int)
    requires
        0 <= k,
    ensures
        gap_prefix_sum(Tight, k, count, measured) == 0,
    decreases k,
{
    if k > 0 {
        lemma_tight_gap_zero(count, measured, k - 1);
    }
}

/// A fixed margin whose total over all gaps stays within three budgets
/// stays within the spacing budget.
pub proof fn lemma_fixed_margin_in_budget(spacing: FixedMargin, count: int, measured: int)
    requires
        -3 * budget() <= spacing.0 <= 3 * budget(),
        -3 * budget() <= spacing.0 * (count - 1) <= 3 * budget(),
    ensures
        spacing_in_budget(spacing, count, measured),
{
    assert forall|j: int| 0 <= j < count implies -3 * budget() <= #[trigger] gap_prefix_sum(
        spacing,
        j,
        count,
        measured,
    ) <= 3 * budget() by {
        lemma_fixed_margin_gap_sum(spacing, count, measured, j);
        assert(0 <= j <= count - 1);
        assert((spacing.0 as int) * j <= 3 * budget() && -3 * budget() <= (spacing.0 as int) * j)
            by (nonlinear_arith)
            requires
                0 <= j <= count - 1,
                0 <= budget(),
                -3 * budget() <= spacing.0 <= 3 * budget(),
                -3 * budget() <= spacing.0 * (count - 1) <= 3 * budget(),
                j == 0 || count >= 2,
        ;
    }
}

/// A fill target within the budget stays within the spacing budget when
/// the measured size and the element count do too.
pub proof fn lemma_distribute_fill_in_budget(spacing: DistributeFill, count: int, measured: int)
    requires
        spacing.0 <= budget(),
        0 <= measured <= budget(),
        count <= budget(),
    ensures
        spacing_in_budget(spacing, count, measured),
{
    let empty = spacing.0 - measured;
    assert forall|k: int| 1 <= k < count implies -3 * budget() <= #[trigger] spacing.offset_spec(
        k,
        count,
        measured,
    ) <= 3 * budget() by {
        lemma_fill_division_bounds(empty, count - 1);
    }
    assert forall|k: int| 0 <= k < count implies -3 * budget() <= #[trigger] gap_prefix_sum(
        spacing,
        k,
        count,
        measured,
    ) <= 3 * budget() by {
        lemma_fill_gap_sum_bounds(spacing, count, measured, k);
        let base = div_trunc(empty, count - 1);
        if k > 0 {
            lemma_fill_division_bounds(empty, count - 1);
            if empty >= 0 {
                assert(k * (base + 1) <= (count - 1) * (base + 1)) by (nonlinear_arith)
                    requires
                        1 <= k <= count - 1,
                        base + 1 >= 0,
                ;
                assert((count - 1) * (base + 1) == (count - 1) * base + (count - 1))
                    by (nonlinear_arith);
            } else {
                assert((count - 1) * base <= k * base) by (nonlinear_arith)
                    requires
                        1 <= k <= count - 1,
                        base <= 0,
                ;
            }
        }
    }
}

/// The truncating quotient of the slack by the gap count lies between zero
/// and the slack, and multiplying it back by the gap count does not
/// overshoot the slack.
proof fn lemma_fill_division_bounds(empty: int, gaps: int)
    requires
        gaps >= 1,
    ensures
        empty >= 0 ==> 0 <= div_trunc(empty, gaps) <= empty && gaps * div_trunc(empty, gaps)
            <= empty && 0 <= rem_trunc(empty, gaps),
        empty < 0 ==> empty <= div_trunc(empty, gaps) <= 0 && gaps * div_trunc(empty, gaps)
            >= empty && rem_trunc(empty, gaps) <= 0,
{
    if empty >= 0 {
        lemma_div_nonincreasing(empty, gaps);
        lemma_fundamental_div_mod(empty, gaps);
    } else {
        lemma_div_nonincreasing(-empty, gaps);
        lemma_fundamental_div_mod(-empty, gaps);
        let quotient = (-empty) / gaps;
        assert(gaps * quotient <= -empty);
        assert(gaps * -quotient == -(gaps * quotient)) by (nonlinear_arith);
    }
}

/// Bounds on the gap prefix sums of fill spacing: with positive slack they
/// grow from zero by at most the base offset plus one per gap; with
/// negative slack they shrink from zero by the base offset per gap.
proof fn lemma_fill_gap_sum_bounds(spacing: DistributeFill, count: int, measured: int, k: int)
    requires
        0 <= k < count,
    ensures
        spacing.0 - measured >= 0 ==> 0 <= gap_prefix_sum(spacing, k, count, measured) <= k * (
        div_trunc(spacing.0 - measured, count - 1) + 1),
        spacing.0 - measured < 0 ==> k * div_trunc(spacing.0 - measured, count - 1)
            <= gap_prefix_sum(spacing, k, count, measured) <= 0,
    decreases k,
{
    let empty = spacing.0 - measured;
    let base = div_trunc(empty, count - 1);
    if k > 0 {
        lemma_fill_gap_sum_bounds(spacing, count, measured, k - 1);
        lemma_fill_division_bounds(empty, count - 1);
        if empty >= 0 {
            assert((k - 1) * (base + 1) + (base + 1) == k * (base + 1)) by (nonlinear_arith);
        } else {
            assert(rem_trunc(empty, count - 1) <= 0);
            assert(spacing.offset_spec(k, count, measured) == base);
            assert((k - 1) * base + base == k * base) by (nonlinear_arith);
        }
    }
}

/// The gap prefix sum of a fixed margin is the margin times the number of
/// gaps crossed.
proof fn lemma_fixed_margin_gap_sum(spacing: FixedMargin, count: int, measured: int, k: int)
    requires
        0 <= k,
    ensures
        gap_prefix_sum(spacing, k, count, measured) == spacing.0 * k,
    decreases k,
{
    if k > 0 {
        lemma_fixed_margin_gap_sum(spacing, count, measured, k - 1);
        assert((spacing.0 as int) * (k - 1) + spacing.0 == (spacing.0 as int) * k)
            by (nonlinear_arith);
    }
}

} // verus!
