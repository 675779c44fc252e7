//! Element spacing policies.
//!
//! A spacing policy contributes two pure operations to a linear layout:
//!
//! - [`ElementSpacing::placement_offset`]: an extra primary-axis offset fed
//!   into the alignment of the element at a given index (always zero for the
//!   first element);
//! - [`ElementSpacing::adjust_total`]: the transformation of the measured
//!   primary-axis size into the final layout size.
//!
//! [`Tight`] leaves both untouched, [`FixedMargin`] inserts a fixed (possibly
//! negative) margin into every gap, and [`DistributeFill`] forces the total
//! size to a target by distributing the slack over the gaps, giving the
//! remainder pixels to the earliest gaps first. Divisions truncate towards
//! zero, also for negative slack, exactly as the placements demand.

use vstd::arithmetic::div_mod::{
    lemma_div_nonincreasing, lemma_fundamental_div_mod, lemma_mod_decreases,
};
use vstd::prelude::*;

verus! {

/// Quotient of `a / b` truncated towards zero, for positive `b`.
pub open spec fn div_trunc(a: int, b: int) -> int {
    if a >= 0 {
        a / b
    } else {
        -((-a) / b)
    }
}

/// Remainder of `a / b` matching [`div_trunc`]: it has the sign of `a`.
pub open spec fn rem_trunc(a: int, b: int) -> int {
    a - b * div_trunc(a, b)
}

/// An element spacing policy of a linear layout.
///
/// `offset_spec` and `adjust_spec` state, per implementor, what the two
/// operations compute; the methods are proved to return exactly those
/// values.
pub trait ElementSpacing: Sized {
    /// The extra primary-axis offset of the element at `index`, out of
    /// `count` elements, for a layout whose measured primary size is
    /// `measured`. The first element always gets zero.
    spec fn offset_spec(&self, index: int, count: int, measured: int) -> int;

    /// The final primary-axis size of a layout of `count` elements whose
    /// measured primary size is `measured`.
    spec fn adjust_spec(&self, measured: int, count: int) -> int;

    /// Compute the extra offset applied when placing the element at
    /// `index`.
    fn placement_offset(&self, index: usize, count: usize, measured: u32) -> (r: i32)
        requires
            index < count,
            i32::MIN <= self.offset_spec(index as int, count as int, measured as int) <= i32::MAX,
        ensures
            r as int == self.offset_spec(index as int, count as int, measured as int),
    ;

    /// Transform the measured primary-axis size into the final layout
    /// size.
    fn adjust_total(&self, measured: u32, count: usize) -> (r: u32)
        requires
            0 <= self.adjust_spec(measured as int, count as int) <= u32::MAX,
        ensures
            r as int == self.adjust_spec(measured as int, count as int),
    ;
}

/// Lay out elements tightly, leaving no space between them.
#[derive(Copy, Clone)]
pub struct Tight;

impl ElementSpacing for Tight {
    open spec fn offset_spec(&self, index: int, count: int, measured: int) -> int {
        0
    }

    open spec fn adjust_spec(&self, measured: int, count: int) -> int {
        measured
    }

    fn placement_offset(&self, index: usize, count: usize, measured: u32) -> i32 {
        0
    }

    fn adjust_total(&self, measured: u32, count: usize) -> u32 {
        measured
    }
}

/// Lay out elements with a fixed margin between them.
///
/// The margin may be negative, in which case the elements overlap.
#[derive(Copy, Clone)]
pub struct FixedMargin(pub i32);

impl ElementSpacing for FixedMargin {
    open spec fn offset_spec(&self, index: int, count: int, measured: int) -> int {
        if index == 0 {
            0
        } else {
            self.0 as int
        }
    }

    open spec fn adjust_spec(&self, measured: int, count: int) -> int {
        if count == 0 {
            measured
        } else {
            measured + self.0 * (count - 1)
        }
    }

    fn placement_offset(&self, index: usize, count: usize, measured: u32) -> i32 {
        if index == 0 {
            0
        } else {
            self.0
        }
    }

    fn adjust_total(&self, measured: u32, count: usize) -> u32 {
        if count == 0 {
            measured
        } else {
            let wide: i128 = measured as i128 + self.0 as i128 * (count as i128 - 1);
            wide as u32
        }
    }
}

/// Distribute elements to fill a given primary-axis size.
///
/// The measured size is forced to the target even when the elements do not
/// fit; the slack (which may then be negative) is split evenly over the
/// `count - 1` gaps, and a positive remainder goes one pixel at a time to
/// the earliest gaps.
#[derive(Copy, Clone)]
pub struct DistributeFill(pub u32);

impl ElementSpacing for DistributeFill {
    open spec fn offset_spec(&self, index: int, count: int, measured: int) -> int {
        if index == 0 {
            0
        } else {
            let empty = self.0 - measured;
            let base = div_trunc(empty, count - 1);
            let remainder = rem_trunc(empty, count - 1);
            if index <= remainder {
                base + 1
            } else {
                base
            }
        }
    }

    open spec fn adjust_spec(&self, measured: int, count: int) -> int {
        self.0 as int
    }

    fn placement_offset(&self, index: usize, count: usize, measured: u32) -> i32 {
        if index == 0 {
            0
        } else {
            let gaps: u64 = count as u64 - 1;
            let empty: i64 = self.0 as i64 - measured as i64;
            let base: i64;
            let remainder: i64;
            if empty >= 0 {
                let quotient: u64 = empty as u64 / gaps;
                let magnitude_rem: u64 = empty as u64 % gaps;
                proof {
                    lemma_div_nonincreasing(empty as int, gaps as int);
                    lemma_mod_decreases(empty as nat, gaps as nat);
                }
                base = quotient as i64;
                remainder = magnitude_rem as i64;
            } else {
                let magnitude: u64 = (-empty) as u64;
                let quotient: u64 = magnitude / gaps;
                let magnitude_rem: u64 = magnitude % gaps;
                proof {
                    lemma_div_nonincreasing(magnitude as int, gaps as int);
                    lemma_mod_decreases(magnitude as nat, gaps as nat);
                }
                base = -(quotient as i64);
                remainder = -(magnitude_rem as i64);
            }
            proof {
                lemma_trunc_matches(empty as int, gaps as int);
            }
            let offset: i64 = if remainder >= 1 && index as u64 <= remainder as u64 {
                base + 1
            } else {
                base
            };
            offset as i32
        }
    }

    fn adjust_total(&self, measured: u32, count: usize) -> u32 {
        self.0
    }
}

/// The sum of the spacing offsets of the elements `1..=k`: the total extra
/// distance the spacing policy has inserted before the element at index `k`.
pub open spec fn gap_prefix_sum<ES: ElementSpacing>(
    spacing: ES,
    k: int,
    count: int,
    measured: int,
) -> int
    decreases k,
{
    if k <= 0 {
        0
    } else {
        gap_prefix_sum(spacing, k - 1, count, measured) + spacing.offset_spec(k, count, measured)
    }
}

/// Division and remainder on magnitudes reproduce the truncating quotient
/// and remainder for either sign of the dividend.
proof fn lemma_trunc_matches(a: int, b: int)
    requires
        b > 0,
    ensures
        a >= 0 ==> div_trunc(a, b) == a / b && rem_trunc(a, b) == a % b,
        a < 0 ==> div_trunc(a, b) == -((-a) / b) && rem_trunc(a, b) == -((-a) % b),
{
    if a >= 0 {
        lemma_fundamental_div_mod(a, b);
    } else {
        lemma_fundamental_div_mod(-a, b);
        let quotient = (-a) / b;
        assert(-a == b * quotient + (-a) % b);
        assert(div_trunc(a, b) == -quotient);
        assert(b * -quotient == -(b * quotient)) by (nonlinear_arith);
        assert(rem_trunc(a, b) == a + b * quotient);
    }
}

} // verus!
