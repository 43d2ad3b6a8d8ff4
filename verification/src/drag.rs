//! Drag-gesture bookkeeping for a row: the offset between the pointer
//! and the row's origin is computed once, on the frame the drag
//! starts, and persisted; later frames of the same gesture read it
//! back and translate the drag overlay by it, so the overlay keeps
//! the grab point's relationship to the row.  The persistent store
//! itself belongs to the host toolkit: its current entry comes in as
//! a plain `Option` and the entry to write goes back out.

use vstd::prelude::*;
use crate::geometry::{Offset, Point};

verus! {

/// The zero displacement, the fallback wherever a pointer position or
/// a stored offset is missing.
pub open spec fn zero_offset() -> Offset {
    Offset { x: 0, y: 0 }
}

/// Whether the displacement from `pointer` to `row_min` fits the
/// offset's components.
pub open spec fn offset_fits(row_min: Point, pointer: Point) -> bool {
    &&& i32::MIN <= row_min.x - pointer.x <= i32::MAX
    &&& i32::MIN <= row_min.y - pointer.y <= i32::MAX
}

/// The offset persisted at drag start: it carries the pointer to the
/// row's top-left corner.
pub open spec fn grab_offset(row_min: Point, pointer: Point) -> Offset {
    Offset { x: (row_min.x - pointer.x) as i32, y: (row_min.y - pointer.y) as i32 }
}

/// The offset a frame of the gesture works with: on the frame the
/// drag starts it is recomputed from the pointer (zero when the
/// pointer position is unavailable); on every later frame it is
/// whatever was stored, zero when the entry is missing or expired.
pub open spec fn spec_frame_offset(
    drag_started: bool,
    pointer: Option<Point>,
    row_min: Point,
    stored: Option<Offset>,
) -> Offset {
    if drag_started {
        match pointer {
            Some(p) => grab_offset(row_min, p),
            None => zero_offset(),
        }
    } else {
        match stored {
            Some(o) => o,
            None => zero_offset(),
        }
    }
}

/// The store's entry after the frame: the frame that starts the drag
/// writes the offset it computed; any other frame leaves the store
/// alone.
pub open spec fn spec_frame_stored(
    drag_started: bool,
    pointer: Option<Point>,
    row_min: Point,
    stored: Option<Offset>,
) -> Option<Offset> {
    if drag_started {
        Some(spec_frame_offset(drag_started, pointer, row_min, stored))
    } else {
        stored
    }
}

/// Select the drag offset for one frame and say what the store should
/// hold afterwards.  `drag_started` is whether a primary-button drag
/// began on the row this frame, `pointer` the latest pointer
/// position, `row_min` the row's top-left corner and `stored` the
/// store's current entry.
pub fn drag_offset_for_frame(
    drag_started: bool,
    pointer: Option<Point>,
    row_min: Point,
    stored: Option<Offset>,
) -> (r: (Offset, Option<Offset>))
    requires
        drag_started && pointer.is_some() ==> offset_fits(row_min, pointer.unwrap()),
    ensures
        r.0 == spec_frame_offset(drag_started, pointer, row_min, stored),
        r.1 == spec_frame_stored(drag_started, pointer, row_min, stored),
{
    if drag_started {
        let offset = match pointer {
            Some(p) => row_min.offset_from(p),
            None => Offset::zero(),
        };
        (offset, Some(offset))
    } else {
        let offset = match stored {
            Some(o) => o,
            None => Offset::zero(),
        };
        (offset, stored)
    }
}

/// Whether the overlay translation for `pointer` and `offset` away
/// from `overlay_origin` fits the offset's components.
pub open spec fn translation_fits(pointer: Point, overlay_origin: Point, offset: Offset) -> bool {
    &&& i32::MIN <= pointer.x + offset.x - overlay_origin.x <= i32::MAX
    &&& i32::MIN <= pointer.y + offset.y - overlay_origin.y <= i32::MAX
}

/// The displacement that carries the overlay from where it was drawn
/// to the pointer, shifted by the persisted grab offset; none when
/// the pointer position is unavailable, in which case the overlay
/// stays where it is for the frame.
pub open spec fn spec_overlay_translation(
    pointer: Option<Point>,
    overlay_origin: Point,
    offset: Offset,
) -> Option<Offset> {
    match pointer {
        Some(p) => Some(
            Offset {
                x: (p.x + offset.x - overlay_origin.x) as i32,
                y: (p.y + offset.y - overlay_origin.y) as i32,
            },
        ),
        None => None,
    }
}

/// Compute the overlay's translation for the frame, if the pointer
/// position allows one.
pub fn overlay_translation(pointer: Option<Point>, overlay_origin: Point, offset: Offset) -> (r:
    Option<Offset>)
    requires
        pointer.is_some() ==> translation_fits(pointer.unwrap(), overlay_origin, offset),
    ensures
        r == spec_overlay_translation(pointer, overlay_origin, offset),
{
    match pointer {
        Some(p) => {
            let x: i64 = p.x as i64 + offset.x as i64 - overlay_origin.x as i64;
            let y: i64 = p.y as i64 + offset.y as i64 - overlay_origin.y as i64;
            Some(Offset { x: x as i32, y: y as i32 })
        },
        None => None,
    }
}

/// The decisions of one drag-overlay frame.
pub struct DragFrame {
    /// The grab offset in force this frame.
    pub offset: Offset,
    /// What the persistent store should hold afterwards.
    pub stored_after: Option<Offset>,
    /// How far to translate the overlay layer, when the pointer
    /// position allows a translation.
    pub translation: Option<Offset>,
    /// Whether a drag overlay is being shown; drawing the overlay is
    /// itself the affirmative answer.
    pub drag_active: bool,
}

/// Decide one frame of the drag overlay.  `grab_pointer` is the
/// pointer position used to compute a starting drag's offset,
/// `interact_pointer` the one used to place the overlay, and
/// `overlay_origin` the top-left corner the overlay's content was
/// drawn at before translation.
pub fn drag_overlay_frame(
    drag_started: bool,
    grab_pointer: Option<Point>,
    row_min: Point,
    stored: Option<Offset>,
    interact_pointer: Option<Point>,
    overlay_origin: Point,
) -> (r: DragFrame)
    requires
        drag_started && grab_pointer.is_some() ==> offset_fits(row_min, grab_pointer.unwrap()),
        interact_pointer.is_some() ==> translation_fits(
            interact_pointer.unwrap(),
            overlay_origin,
            spec_frame_offset(drag_started, grab_pointer, row_min, stored),
        ),
    ensures
        r.offset == spec_frame_offset(drag_started, grab_pointer, row_min, stored),
        r.stored_after == spec_frame_stored(drag_started, grab_pointer, row_min, stored),
        r.translation == spec_overlay_translation(interact_pointer, overlay_origin, r.offset),
        r.drag_active,
{
    let (offset, stored_after) = drag_offset_for_frame(drag_started, grab_pointer, row_min, stored);
    let translation = overlay_translation(interact_pointer, overlay_origin, offset);
    DragFrame { offset, stored_after, translation, drag_active: true }
}

/// Persistence round trip: the frame that starts a drag stores the
/// offset from the pointer to the row's top-left corner, and any
/// later frame of the gesture — whatever its own pointer position or
/// row — works with that stored offset, not with one recomputed.
pub proof fn lemma_drag_offset_round_trip(
    start_pointer: Point,
    row_min: Point,
    stored_before: Option<Offset>,
    later_pointer: Option<Point>,
    later_row_min: Point,
)
    requires
        offset_fits(row_min, start_pointer),
    ensures
        ({
            let stored = spec_frame_stored(true, Some(start_pointer), row_min, stored_before);
            let later = spec_frame_offset(false, later_pointer, later_row_min, stored);
            &&& later == grab_offset(row_min, start_pointer)
            &&& later.x == row_min.x - start_pointer.x
            &&& later.y == row_min.y - start_pointer.y
        }),
{
}

} // verus!
