//! Operations on an ordered collection of rectangles.
//!
//! A view group is simply a `Vec` of rectangles: the arrangement engine
//! reads each element's bounding rectangle and translates elements in place.
//! This module provides the whole-group operations: translating every
//! element and computing the smallest rectangle that envelopes them all.

use crate::geometry::{max_int, min_int, Point, Rect, Size};
use vstd::prelude::*;

verus! {

/// The smallest left edge of any rectangle in `s`; meaningful for a
/// non-empty sequence.
pub open spec fn envelope_left(s: Seq<Rect>) -> int
    decreases s.len(),
{
    if s.len() <= 1 {
        s[0].left()
    } else {
        min_int(envelope_left(s.drop_last()), s.last().left())
    }
}

/// The smallest top edge of any rectangle in `s`.
pub open spec fn envelope_top(s: Seq<Rect>) -> int
    decreases s.len(),
{
    if s.len() <= 1 {
        s[0].top()
    } else {
        min_int(envelope_top(s.drop_last()), s.last().top())
    }
}

/// The largest inclusive right edge of any rectangle in `s`.
pub open spec fn envelope_right(s: Seq<Rect>) -> int
    decreases s.len(),
{
    if s.len() <= 1 {
        s[0].right()
    } else {
        max_int(envelope_right(s.drop_last()), s.last().right())
    }
}

/// The largest inclusive bottom edge of any rectangle in `s`.
pub open spec fn envelope_bottom(s: Seq<Rect>) -> int
    decreases s.len(),
{
    if s.len() <= 1 {
        s[0].bottom()
    } else {
        max_int(envelope_bottom(s.drop_last()), s.last().bottom())
    }
}

/// The width of the smallest rectangle that envelopes every rectangle in
/// `s`: zero for an empty sequence, the element's own width for a single
/// element, and the span of the envelope edges otherwise (empty rectangles
/// then take part as one pixel wide).
pub open spec fn envelope_width(s: Seq<Rect>) -> int {
    if s.len() == 0 {
        0
    } else if s.len() == 1 {
        s[0].width()
    } else {
        envelope_right(s) - envelope_left(s) + 1
    }
}

/// The height of the smallest rectangle that envelopes every rectangle in
/// `s`; see [`envelope_width`].
pub open spec fn envelope_height(s: Seq<Rect>) -> int {
    if s.len() == 0 {
        0
    } else if s.len() == 1 {
        s[0].height()
    } else {
        envelope_bottom(s) - envelope_top(s) + 1
    }
}

/// The envelope edges of a prefix lie within the envelope edges of the
/// whole sequence.
pub proof fn lemma_envelope_prefix_bounded(s: Seq<Rect>, i: int)
    requires
        1 <= i <= s.len(),
    ensures
        envelope_left(s.take(i)) >= envelope_left(s),
        envelope_top(s.take(i)) >= envelope_top(s),
        envelope_right(s.take(i)) <= envelope_right(s),
        envelope_bottom(s.take(i)) <= envelope_bottom(s),
    decreases s.len(),
{
    if i == s.len() {
        assert(s.take(i) =~= s);
    } else {
        assert(s.take(i) =~= s.drop_last().take(i));
        lemma_envelope_prefix_bounded(s.drop_last(), i);
    }
}

/// Extending a prefix by one element extends the envelope by that
/// element's edges.
pub proof fn lemma_envelope_prefix_step(s: Seq<Rect>, i: int)
    requires
        1 <= i < s.len(),
    ensures
        envelope_left(s.take(i + 1)) == min_int(envelope_left(s.take(i)), s[i].left()),
        envelope_top(s.take(i + 1)) == min_int(envelope_top(s.take(i)), s[i].top()),
        envelope_right(s.take(i + 1)) == max_int(envelope_right(s.take(i)), s[i].right()),
        envelope_bottom(s.take(i + 1)) == max_int(envelope_bottom(s.take(i)), s[i].bottom()),
{
    assert(s.take(i + 1).drop_last() =~= s.take(i));
    assert(s.take(i + 1).last() == s[i]);
    assert(s.take(i + 1).len() == i + 1);
}

/// The envelope contains every element of the sequence.
pub proof fn lemma_envelope_contains(s: Seq<Rect>, i: int)
    requires
        0 <= i < s.len(),
    ensures
        envelope_left(s) <= s[i].left(),
        envelope_top(s) <= s[i].top(),
        envelope_right(s) >= s[i].right(),
        envelope_bottom(s) >= s[i].bottom(),
    decreases s.len(),
{
    if i < s.len() - 1 {
        lemma_envelope_contains(s.drop_last(), i);
    }
}

/// The envelope edges stay within any bounds that every element's edges
/// respect.
pub proof fn lemma_envelope_bounded(s: Seq<Rect>, low_x: int, high_x: int, low_y: int, high_y: int)
    requires
        s.len() > 0,
        forall|i: int|
            0 <= i < s.len() ==> {
                &&& low_x <= (#[trigger] s[i]).left()
                &&& s[i].right() <= high_x
                &&& low_y <= s[i].top()
                &&& s[i].bottom() <= high_y
            },
    ensures
        low_x <= envelope_left(s),
        envelope_right(s) <= high_x,
        low_y <= envelope_top(s),
        envelope_bottom(s) <= high_y,
    decreases s.len(),
{
    if s.len() > 1 {
        lemma_envelope_bounded(s.drop_last(), low_x, high_x, low_y, high_y);
        assert(s.last() == s[s.len() - 1]);
    }
}

/// A view group with no elements. Its bounding rectangle is the empty
/// rectangle at the origin.
#[derive(Clone, Copy, PartialEq, Eq, Structural, Debug)]
pub struct EmptyViewGroup;

impl EmptyViewGroup {
    /// The number of elements: always zero.
    pub fn len(&self) -> (n: usize)
        ensures
            n == 0,
    {
        0
    }

    /// The bounding rectangle: the empty rectangle at the origin.
    pub fn bounds(&self) -> (r: Rect)
        ensures
            r.left() == 0,
            r.top() == 0,
            r.width() == 0,
            r.height() == 0,
    {
        Rect::zero()
    }
}

/// Whole-group operations on a collection of rectangles.
pub struct ViewGroupHelper;

impl ViewGroupHelper {
    /// Translate every rectangle of the group by the given vector.
    pub fn translate(vg: &mut Vec<Rect>, by: Point)
        requires
            forall|i: int| 0 <= i < old(vg)@.len() ==> {
                &&& i32::MIN <= (#[trigger] old(vg)@[i]).left() + by.x <= i32::MAX
                &&& i32::MIN <= old(vg)@[i].top() + by.y <= i32::MAX
            },
        ensures
            final(vg)@.len() == old(vg)@.len(),
            forall|i: int| 0 <= i < old(vg)@.len() ==> {
                &&& (#[trigger] final(vg)@[i]).left() == old(vg)@[i].left() + by.x
                &&& final(vg)@[i].top() == old(vg)@[i].top() + by.y
                &&& final(vg)@[i].size == old(vg)@[i].size
            },
    {
        let ghost s = vg@;
        let count = vg.len();
        let mut moved: Vec<Rect> = Vec::new();
        let mut i: usize = 0;
        while i < count
            invariant
                i <= count,
                count == s.len(),
                vg@ == s,
                moved@.len() == i,
                forall|j: int| 0 <= j < s.len() ==> {
                    &&& i32::MIN <= (#[trigger] s[j]).left() + by.x <= i32::MAX
                    &&& i32::MIN <= s[j].top() + by.y <= i32::MAX
                },
                forall|j: int| 0 <= j < i ==> {
                    &&& (#[trigger] moved@[j]).left() == s[j].left() + by.x
                    &&& moved@[j].top() == s[j].top() + by.y
                    &&& moved@[j].size == s[j].size
                },
            decreases count - i,
        {
            let r = vg[i].translate(by);
            moved.push(r);
            i += 1;
        }
        *vg = moved;
    }

    /// The smallest rectangle that envelopes every rectangle of the group.
    /// An empty group has the empty rectangle at the origin as its bounds.
    pub fn bounds(vg: &Vec<Rect>) -> (r: Rect)
        requires
            vg@.len() > 0 ==> {
                &&& envelope_right(vg@) - envelope_left(vg@) + 1 <= u32::MAX
                &&& envelope_bottom(vg@) - envelope_top(vg@) + 1 <= u32::MAX
            },
        ensures
            vg@.len() == 0 ==> r == (Rect {
                top_left: Point { x: 0, y: 0 },
                size: Size { width: 0, height: 0 },
            }),
            vg@.len() > 0 ==> {
                &&& r.left() == envelope_left(vg@)
                &&& r.top() == envelope_top(vg@)
                &&& r.right() == envelope_right(vg@)
                &&& r.bottom() == envelope_bottom(vg@)
            },
            r.width() == envelope_width(vg@),
            r.height() == envelope_height(vg@),
    {
        let ghost s = vg@;
        let count = vg.len();
        if count == 0 {
            return Rect::zero();
        }
        let mut rect = vg[0];
        proof {
            assert(s.take(1) =~= seq![s[0]]);
        }
        let mut i: usize = 1;
        while i < count
            invariant
                1 <= i <= count,
                count == s.len(),
                vg@ == s,
                envelope_right(s) - envelope_left(s) + 1 <= u32::MAX,
                envelope_bottom(s) - envelope_top(s) + 1 <= u32::MAX,
                rect.left() == envelope_left(s.take(i as int)),
                rect.top() == envelope_top(s.take(i as int)),
                rect.right() == envelope_right(s.take(i as int)),
                rect.bottom() == envelope_bottom(s.take(i as int)),
                i == 1 ==> rect.size == s[0].size,
                i > 1 ==> rect.width() == rect.right() - rect.left() + 1 && rect.height()
                    == rect.bottom() - rect.top() + 1,
            decreases count - i,
        {
            proof {
                lemma_envelope_prefix_step(s, i as int);
                lemma_envelope_prefix_bounded(s, i as int);
                lemma_envelope_prefix_bounded(s, i as int + 1);
                lemma_envelope_contains(s, i as int);
            }
            rect = rect.enveloping(&vg[i]);
            i += 1;
        }
        proof {
            assert(s.take(count as int) =~= s);
        }
        rect
    }
}

} // verus!
