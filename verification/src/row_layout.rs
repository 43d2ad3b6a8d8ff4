//! Layout of a single tree-view row: which of the closer (the
//! expand/collapse affordance) and the icon reserve horizontal space
//! and which are actually drawn under each layout policy, where the
//! three slots start, and the row's background, label and slot
//! rectangles.

use vstd::prelude::*;
use crate::geometry::{Point, Rect};

verus! {

/// The four row layout policies a tree view can be configured with.
#[derive(Clone, Copy, Debug, PartialEq, Eq, Structural)]
pub enum RowLayout {
    /// Closer and icon each take space only when shown.
    Compact,
    /// Labels of files and directories line up: files reserve the icon
    /// slot in place of the missing closer.
    CompactAlignedLabels,
    /// Every row reserves the closer slot, so icons line up.
    AlignedIcons,
    /// Every row reserves both slots, so icons and labels line up.
    AlignedIconsAndLabels,
}

/// Per-widget configuration read by the row layout.
#[derive(Clone, Copy, Debug, PartialEq, Eq, Structural)]
pub struct TreeViewSettings {
    pub row_layout: RowLayout,
}

/// Which slots reserve space and which are drawn, for one row in one
/// frame.  A slot that is drawn always reserves its space too.
#[derive(Clone, Copy, Debug, PartialEq, Eq, Structural)]
pub struct LayoutFlags {
    pub reserve_closer: bool,
    pub draw_closer: bool,
    pub reserve_icon: bool,
    pub draw_icon: bool,
}

/// The state of one tree node for the frame being laid out.
pub struct Row<NodeIdType> {
    pub id: NodeIdType,
    /// Horizontal indent of the row, in layout units.
    pub depth: i32,
    /// Whether the owning widget may drop onto this row.  Read by the
    /// widget, not by the layout itself.
    pub drop_on_allowed: bool,
    /// Whether the node is expanded.
    pub is_open: bool,
    /// Whether the node can contain children.
    pub is_dir: bool,
}

/// Left edges of the three slots of a row, recorded before the label
/// is drawn.
#[derive(Clone, Copy, Debug, PartialEq, Eq, Structural)]
pub struct SlotPositions {
    pub closer_x: i32,
    pub icon_x: i32,
    pub label_x: i32,
}

/// The reserve/draw flags a policy assigns to a row.  This is the
/// policy table: reservation and drawing are independent bits per
/// slot, and only reservation varies with the policy — the closer is
/// drawn exactly for directories, the icon exactly where the caller
/// supplied one and the policy admits it.
pub open spec fn spec_layout_flags(layout: RowLayout, is_dir: bool, has_icon: bool) -> LayoutFlags {
    match layout {
        RowLayout::Compact => LayoutFlags {
            reserve_closer: is_dir,
            draw_closer: is_dir,
            reserve_icon: false,
            draw_icon: false,
        },
        RowLayout::CompactAlignedLabels => LayoutFlags {
            reserve_closer: is_dir,
            draw_closer: is_dir,
            reserve_icon: !is_dir,
            draw_icon: !is_dir && has_icon,
        },
        RowLayout::AlignedIcons => LayoutFlags {
            reserve_closer: true,
            draw_closer: is_dir,
            reserve_icon: has_icon,
            draw_icon: has_icon,
        },
        RowLayout::AlignedIconsAndLabels => LayoutFlags {
            reserve_closer: true,
            draw_closer: is_dir,
            reserve_icon: true,
            draw_icon: has_icon,
        },
    }
}

/// Compute the reserve/draw flags for a row with directory flag
/// `is_dir` and an icon callback present iff `has_icon`.
pub fn layout_flags(layout: RowLayout, is_dir: bool, has_icon: bool) -> (f: LayoutFlags)
    ensures
        f == spec_layout_flags(layout, is_dir, has_icon),
{
    match layout {
        RowLayout::Compact => LayoutFlags {
            reserve_closer: is_dir,
            draw_closer: is_dir,
            reserve_icon: false,
            draw_icon: false,
        },
        RowLayout::CompactAlignedLabels => LayoutFlags {
            reserve_closer: is_dir,
            draw_closer: is_dir,
            reserve_icon: !is_dir,
            draw_icon: !is_dir && has_icon,
        },
        RowLayout::AlignedIcons => LayoutFlags {
            reserve_closer: true,
            draw_closer: is_dir,
            reserve_icon: has_icon,
            draw_icon: has_icon,
        },
        RowLayout::AlignedIconsAndLabels => LayoutFlags {
            reserve_closer: true,
            draw_closer: is_dir,
            reserve_icon: true,
            draw_icon: has_icon,
        },
    }
}

/// Under every policy the closer is drawn exactly for directories:
/// only its reservation depends on the policy.
pub proof fn lemma_closer_drawn_iff_dir(layout: RowLayout, is_dir: bool, has_icon: bool)
    ensures
        spec_layout_flags(layout, is_dir, has_icon).draw_closer == is_dir,
{
}

/// No slot is ever drawn without its space being reserved: drawing
/// implies reservation, for the closer and for the icon, under every
/// policy.
pub proof fn lemma_drawn_slots_reserved(layout: RowLayout, is_dir: bool, has_icon: bool)
    ensures
        spec_layout_flags(layout, is_dir, has_icon).draw_closer
            ==> spec_layout_flags(layout, is_dir, has_icon).reserve_closer,
        spec_layout_flags(layout, is_dir, has_icon).draw_icon
            ==> spec_layout_flags(layout, is_dir, has_icon).reserve_icon,
{
}

/// Advance a horizontal cursor from `origin_x`: first by the row's
/// indent, then by one icon width for each reserved slot, recording
/// where the closer, the icon and the label start.
pub fn slot_positions(origin_x: i32, depth: i32, icon_width: i32, flags: LayoutFlags) -> (s:
    SlotPositions)
    requires
        0 <= depth,
        0 <= icon_width,
        origin_x + depth + 2 * icon_width <= i32::MAX,
    ensures
        s.closer_x == origin_x + depth,
        s.icon_x == s.closer_x + (if flags.reserve_closer {
            icon_width as int
        } else {
            0
        }),
        s.label_x == s.icon_x + (if flags.reserve_icon {
            icon_width as int
        } else {
            0
        }),
{
    let closer_x: i32 = origin_x + depth;
    let icon_x: i32 = if flags.reserve_closer {
        closer_x + icon_width
    } else {
        closer_x
    };
    let label_x: i32 = if flags.reserve_icon {
        icon_x + icon_width
    } else {
        icon_x
    };
    SlotPositions { closer_x, icon_x, label_x }
}

/// The left edge of the label rectangle: the left-most slot that is
/// actually drawn — the closer's if one is drawn, else the icon's if
/// one is drawn, else the label's own.
pub open spec fn spec_label_left(flags: LayoutFlags, slots: SlotPositions) -> i32 {
    if flags.draw_closer {
        slots.closer_x
    } else if flags.draw_icon {
        slots.icon_x
    } else {
        slots.label_x
    }
}

/// Pick the left edge of the label rectangle for the given flags.
pub fn label_left(flags: LayoutFlags, slots: SlotPositions) -> (x: i32)
    ensures
        x == spec_label_left(flags, slots),
{
    if flags.draw_closer {
        slots.closer_x
    } else if flags.draw_icon {
        slots.icon_x
    } else {
        slots.label_x
    }
}

/// Expand the row's content rectangle by `half_spacing` above and
/// below, so that the drop zones of adjacent rows touch with no gap.
pub fn background_rect(content: Rect, half_spacing: i32) -> (r: Rect)
    requires
        content.wf(),
        0 <= half_spacing,
        i32::MIN <= content.min.y - half_spacing,
        content.max.y + half_spacing <= i32::MAX,
    ensures
        r.min.x == content.min.x,
        r.max.x == content.max.x,
        r.min.y == content.min.y - half_spacing,
        r.max.y == content.max.y + half_spacing,
        r.wf(),
{
    Rect {
        min: Point { x: content.min.x, y: content.min.y - half_spacing },
        max: Point { x: content.max.x, y: content.max.y + half_spacing },
    }
}

/// The background rectangle exceeds the content rectangle vertically
/// by half the item spacing on each side, so its height is the
/// content height plus the whole spacing.
pub proof fn lemma_background_adds_spacing(content: Rect, background: Rect, half_spacing: int)
    requires
        background.min.y == content.min.y - half_spacing,
        background.max.y == content.max.y + half_spacing,
    ensures
        background.spec_height() == content.spec_height() + 2 * half_spacing,
{
}

/// The label rectangle: the background rectangle with its left edge
/// moved to `left`.
pub fn label_rect(background: Rect, left: i32) -> (r: Rect)
    ensures
        r.min.x == left,
        r.min.y == background.min.y,
        r.max == background.max,
{
    Rect { min: Point { x: left, y: background.min.y }, max: background.max }
}

/// Halving rounds toward the origin's side of the number line but
/// never crosses zero or the argument itself.
proof fn lemma_half_between(d: int)
    ensures
        d >= 0 ==> 0 <= d / 2 <= d,
        d < 0 ==> d <= d / 2 <= 0,
{
    vstd::arithmetic::div_mod::lemma_fundamental_div_mod(d, 2);
    vstd::arithmetic::div_mod::lemma_mod_division_less_than_divisor(d, 2);
    if d >= 0 {
        vstd::arithmetic::div_mod::lemma_div_pos_is_pos(d, 2);
        vstd::arithmetic::div_mod::lemma_div_nonincreasing(d, 2);
    }
}

/// Floor of `d / 2`, computed without signed division.
fn floor_half_i64(d: i64) -> (r: i64)
    requires
        -0x1_0000_0000 <= d <= 0x1_0000_0000,
    ensures
        r == d as int / 2,
{
    if d >= 0 {
        ((d as u64) / 2) as i64
    } else {
        let k: i64 = -d;
        let q: i64 = (((k as u64) + 1) / 2) as i64;
        proof {
            let ki = k as int;
            let qi = (ki + 1) / 2;
            vstd::arithmetic::div_mod::lemma_fundamental_div_mod(ki + 1, 2);
            vstd::arithmetic::div_mod::lemma_mod_division_less_than_divisor(ki + 1, 2);
            let r2 = (ki + 1) % 2;
            assert(d as int == 2 * (-qi) + (1 - r2));
            vstd::arithmetic::div_mod::lemma_div_multiples_vanish_fancy(-qi, 1 - r2, 2);
        }
        -q
    }
}

/// A square of side `side`, horizontally at `slot_x` and vertically
/// centered within the row extent `[row_top, row_top + row_height)`,
/// with an odd leftover unit going below the centre.
pub fn centered_slot_rect(slot_x: i32, row_top: i32, row_height: i32, side: i32) -> (r: Rect)
    requires
        0 <= side,
        0 <= row_height,
        slot_x + side <= i32::MAX,
        i32::MIN <= row_top - side,
        row_top + row_height + side <= i32::MAX,
    ensures
        r.min.x == slot_x,
        r.max.x == slot_x + side,
        r.min.y == row_top + (row_height - side) / 2,
        r.max.y == r.min.y + side,
        r.wf(),
{
    let d: i64 = row_height as i64 - side as i64;
    let off: i64 = floor_half_i64(d);
    proof {
        lemma_half_between(d as int);
    }
    let min_y: i64 = row_top as i64 + off;
    Rect {
        min: Point { x: slot_x, y: min_y as i32 },
        max: Point { x: slot_x + side, y: (min_y + side as i64) as i32 },
    }
}

/// Everything the layout decides for one row in one frame.  Rectangle
/// positions are in the same units and coordinate system as the
/// inputs they were computed from.
pub struct RowLayoutResult {
    /// Which slots reserved space and which were drawn.
    pub flags: LayoutFlags,
    /// Left edges of the closer, icon and label slots.
    pub slots: SlotPositions,
    /// The full-width clickable background, expanded vertically by
    /// half the item spacing on each side.
    pub background: Rect,
    /// The background with its left edge at the left-most drawn slot,
    /// for label-level hit-testing.
    pub label_rect: Rect,
    /// Where the closer is drawn, present iff one is drawn.
    pub closer_rect: Option<Rect>,
    /// Where the icon is drawn, present iff one is drawn.
    pub icon_rect: Option<Rect>,
}

impl<NodeIdType> Row<NodeIdType> {
    /// Lay the row out.  `origin` is the top-left corner of the row's
    /// content before the indent is applied, `right_x` the right edge
    /// of the available width, `row_height` the content height the
    /// label drawing settled on, `icon_width` the side of the closer
    /// and icon slots and `half_spacing` half the vertical item
    /// spacing.  The closer and icon rectangles are vertically
    /// centered against the final row height, which is why they are
    /// computed after the label.
    pub fn layout_row(
        &self,
        settings: &TreeViewSettings,
        has_icon: bool,
        origin: Point,
        right_x: i32,
        row_height: i32,
        icon_width: i32,
        half_spacing: i32,
    ) -> (r: RowLayoutResult)
        requires
            0 <= self.depth,
            0 <= icon_width,
            0 <= row_height,
            0 <= half_spacing,
            origin.x <= right_x,
            origin.x + self.depth + 2 * icon_width + icon_width <= i32::MAX,
            i32::MIN <= origin.y - half_spacing - icon_width,
            origin.y + row_height + half_spacing + icon_width <= i32::MAX,
        ensures
            r.flags == spec_layout_flags(settings.row_layout, self.is_dir, has_icon),
            r.slots.closer_x == origin.x + self.depth,
            r.slots.icon_x == r.slots.closer_x + (if r.flags.reserve_closer {
                icon_width as int
            } else {
                0
            }),
            r.slots.label_x == r.slots.icon_x + (if r.flags.reserve_icon {
                icon_width as int
            } else {
                0
            }),
            r.background.min.x == origin.x,
            r.background.max.x == right_x,
            r.background.min.y == origin.y - half_spacing,
            r.background.max.y == origin.y + row_height + half_spacing,
            r.background.wf(),
            r.label_rect.min.x == spec_label_left(r.flags, r.slots),
            r.label_rect.min.y == r.background.min.y,
            r.label_rect.max == r.background.max,
            r.closer_rect.is_some() == r.flags.draw_closer,
            r.closer_rect.is_some() ==> {
                let c = r.closer_rect.unwrap();
                &&& c.min.x == r.slots.closer_x
                &&& c.max.x == r.slots.closer_x + icon_width
                &&& c.min.y == origin.y + (row_height - icon_width) / 2
                &&& c.max.y == c.min.y + icon_width
            },
            r.icon_rect.is_some() == r.flags.draw_icon,
            r.icon_rect.is_some() ==> {
                let c = r.icon_rect.unwrap();
                &&& c.min.x == r.slots.icon_x
                &&& c.max.x == r.slots.icon_x + icon_width
                &&& c.min.y == origin.y + (row_height - icon_width) / 2
                &&& c.max.y == c.min.y + icon_width
            },
    {
        let flags = layout_flags(settings.row_layout, self.is_dir, has_icon);
        let slots = slot_positions(origin.x, self.depth, icon_width, flags);
        let content = Rect {
            min: origin,
            max: Point { x: right_x, y: origin.y + row_height },
        };
        let background = background_rect(content, half_spacing);
        let left = label_left(flags, slots);
        let label = label_rect(background, left);
        let closer_rect = if flags.draw_closer {
            Some(centered_slot_rect(slots.closer_x, origin.y, row_height, icon_width))
        } else {
            None
        };
        let icon_rect = if flags.draw_icon {
            Some(centered_slot_rect(slots.icon_x, origin.y, row_height, icon_width))
        } else {
            None
        };
        RowLayoutResult { flags, slots, background, label_rect: label, closer_rect, icon_rect }
    }
}

} // verus!
