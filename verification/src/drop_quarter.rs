//! Classification of a cursor's vertical position within a candidate
//! drop row.  The row's vertical extent is split into four consecutive
//! half-open bands; the band the cursor falls in tells the owning
//! widget whether a drop would insert before, into (upper or lower
//! half) or after the row.

use vstd::prelude::*;
use crate::geometry::YRange;

verus! {

/// Thickness, in layout units, of the hover bands at the top and the
/// bottom of a row.
pub const DROP_LINE_HOVER_HEIGHT: i32 = 5;

/// The quarter of a row's vertical extent that a cursor falls in.
#[derive(Clone, Copy, Debug, PartialEq, Eq, Structural)]
pub enum DropQuarter {
    Top,
    MiddleTop,
    MiddleBottom,
    Bottom,
}

/// The band of `[min, max)` that `y` falls in, or `None` when no band
/// holds it.  The bands are, in the order they are tried:
/// `[min, min + H)`, `[min + H, mid)`, `[mid, max - H)` and
/// `[max - H, max)`, with `H` the hover thickness and `mid` the
/// midpoint of the extent, rounded down.  For extents shorter than
/// `2 * H` some bands are empty or inverted; membership is still
/// evaluated literally, in order.
pub open spec fn quarter_of(min: int, max: int, y: int) -> Option<DropQuarter> {
    let h1 = min + DROP_LINE_HOVER_HEIGHT;
    let h2 = (min + max) / 2;
    let h3 = max - DROP_LINE_HOVER_HEIGHT;
    if min <= y && y < h1 {
        Some(DropQuarter::Top)
    } else if h1 <= y && y < h2 {
        Some(DropQuarter::MiddleTop)
    } else if h2 <= y && y < h3 {
        Some(DropQuarter::MiddleBottom)
    } else if h3 <= y && y < max {
        Some(DropQuarter::Bottom)
    } else {
        None
    }
}

impl DropQuarter {
    /// Classify `cursor_pos` against the row extent `range`.
    pub fn new(range: YRange, cursor_pos: i32) -> (r: Option<DropQuarter>)
        requires
            range.wf(),
        ensures
            r == quarter_of(range.min as int, range.max as int, cursor_pos as int),
    {
        let min: i64 = range.min as i64;
        let max: i64 = range.max as i64;
        let y: i64 = cursor_pos as i64;
        let h1: i64 = min + DROP_LINE_HOVER_HEIGHT as i64;
        let h2: i64 = min + (((max - min) as u64) / 2) as i64;
        let h3: i64 = max - DROP_LINE_HOVER_HEIGHT as i64;
        proof {
            lemma_midpoint_from_span(min as int, max as int);
        }
        if y >= min && y < h1 {
            Some(DropQuarter::Top)
        } else if y >= h1 && y < h2 {
            Some(DropQuarter::MiddleTop)
        } else if y >= h2 && y < h3 {
            Some(DropQuarter::MiddleBottom)
        } else if y >= h3 && y < max {
            Some(DropQuarter::Bottom)
        } else {
            None
        }
    }
}

/// The midpoint of an ordered extent can be taken either as the
/// halved sum or as the lower bound plus half the span.
proof fn lemma_midpoint_from_span(min: int, max: int)
    requires
        min <= max,
    ensures
        min + (max - min) / 2 == (min + max) / 2,
{
    let s = max - min;
    assert((2 * min + s) / 2 == min + s / 2) by {
        vstd::arithmetic::div_mod::lemma_div_multiples_vanish_fancy(min, s % 2, 2);
        vstd::arithmetic::div_mod::lemma_fundamental_div_mod(s, 2);
        assert(2 * min + s == 2 * (min + s / 2) + s % 2);
        vstd::arithmetic::div_mod::lemma_div_multiples_vanish_fancy(min + s / 2, s % 2, 2);
    }
}

/// Every cursor position inside the extent is classified: the four
/// bands cover `[min, max)` whenever the extent is non-empty, however
/// short it is.  Disjointness needs no separate statement: the bands
/// are tried in order and exactly one answer is returned.
pub proof fn lemma_quarter_total(min: int, max: int, y: int)
    requires
        min <= y < max,
    ensures
        quarter_of(min, max, y) is Some,
{
}

/// A cursor outside `[min, max)` is never classified, provided the
/// extent is at least one hover band tall.  (For shorter extents the
/// literal band evaluation can catch nearby outside positions, e.g.
/// `min = 0`, `max = 3`, `y = -1` falls in the bottom band.)
pub proof fn lemma_quarter_none_outside(min: int, max: int, y: int)
    requires
        min + DROP_LINE_HOVER_HEIGHT <= max,
        y < min || max <= y,
    ensures
        quarter_of(min, max, y) is None,
{
    assert(2 * min <= min + max && min + max <= 2 * max);
    assert((2 * min) / 2 <= (min + max) / 2 && (min + max) / 2 <= (2 * max) / 2) by {
        vstd::arithmetic::div_mod::lemma_div_is_ordered(2 * min, min + max, 2);
        vstd::arithmetic::div_mod::lemma_div_is_ordered(min + max, 2 * max, 2);
    }
    assert((2 * min) / 2 == min && (2 * max) / 2 == max) by {
        vstd::arithmetic::div_mod::lemma_div_multiples_vanish(min, 2);
        vstd::arithmetic::div_mod::lemma_div_multiples_vanish(max, 2);
    }
}

} // verus!
