//! Panel positioning and viewport clamping.
//!
//! The root panel is anchored at the trigger coordinates; a submenu panel
//! opens at the right edge of its parent panel, level with the hovered
//! item. Once a panel has a measured size, its position is clamped so it
//! never renders outside the viewport: a panel that would overflow the
//! bottom edge flips to open upward from its anchor, and one that would
//! overflow the right edge re-anchors to the left of the leftmost
//! currently-open panel, so that deeply nested menus stack toward the
//! side that has room.

use vstd::prelude::*;

verus! {

/// The bounding box of a rendered element, as the rendering layer
/// measures it.
pub struct PanelRect {
    pub left: i32,
    pub top: i32,
    pub width: i32,
    pub height: i32,
}

/// The measurements the engine queries from the rendering layer: element
/// bounding boxes, resolved through panel handles the engine allocated,
/// and the viewport size. Implemented by the embedding application's
/// rendering layer; the engine assumes nothing about the returned values.
pub trait GeometryProvider {
    /// The bounding box of the panel mounted under `panel`.
    fn measure(&self, panel: u64) -> PanelRect;

    /// The viewport's width and height.
    fn viewport_size(&self) -> (i32, i32);
}

/// The clamped horizontal position of a panel of width `w` preferred at
/// `x`: unchanged when the panel fits, otherwise re-anchored so its right
/// edge meets the leftmost open panel's left edge `ml`.
pub open spec fn clamp_x_spec(x: int, w: int, vw: int, ml: int) -> int {
    if x + w > vw {
        ml - w
    } else {
        x
    }
}

/// The clamped vertical position of a panel of height `h` preferred at
/// `y`: unchanged when the panel fits, otherwise flipped to open upward
/// from its anchor.
pub open spec fn clamp_y_spec(y: int, h: int, vh: int) -> int {
    if y + h > vh {
        y - h
    } else {
        y
    }
}

/// Whether a measured bounding box admits clamping a panel anchored at
/// `(ax, ay)` against the leftmost open edge `ml`: the measured size is
/// nonnegative and the clamping arithmetic stays within the coordinate
/// range.
pub open spec fn clampable(ax: i32, ay: i32, rect: PanelRect, ml: i32) -> bool {
    &&& 0 <= rect.width
    &&& 0 <= rect.height
    &&& ax + rect.width <= i32::MAX
    &&& ay + rect.height <= i32::MAX
    &&& i32::MIN <= ay - rect.height
    &&& i32::MIN <= ml - rect.width
}

/// Clamps a panel's preferred position `(x, y)` against the viewport
/// `(viewport_width, viewport_height)`, given the panel's measured size
/// `(width, height)` and the leftmost left edge `min_left` of the panels
/// currently open.
pub fn clamp_to_viewport(
    x: i32,
    y: i32,
    width: i32,
    height: i32,
    viewport_width: i32,
    viewport_height: i32,
    min_left: i32,
) -> (pos: (i32, i32))
    requires
        0 <= width,
        0 <= height,
        x + width <= i32::MAX,
        y + height <= i32::MAX,
        i32::MIN <= y - height,
        i32::MIN <= min_left - width,
    ensures
        pos.0 == clamp_x_spec(x as int, width as int, viewport_width as int, min_left as int),
        pos.1 == clamp_y_spec(y as int, height as int, viewport_height as int),
{
    let out_y: i32 = if y + height > viewport_height {
        y - height
    } else {
        y
    };
    let out_x: i32 = if x + width > viewport_width {
        min_left - width
    } else {
        x
    };
    (out_x, out_y)
}

/// A panel pushed off the right viewport edge never renders to the right
/// of any open panel: its clamped position keeps it left of the leftmost
/// open left edge. A panel pushed off the bottom edge opens upward: its
/// clamped top is its anchor minus its height.
pub proof fn lemma_clamp_stays_inside(x: int, y: int, w: int, h: int, vw: int, vh: int, ml: int)
    requires
        0 <= w,
        0 <= h,
    ensures
        x + w > vw ==> clamp_x_spec(x, w, vw, ml) <= ml,
        y + h > vh ==> clamp_y_spec(y, h, vh) == y - h,
{
}

/// The leftmost left edge among the root panel's and the open submenu
/// panels': the edge a horizontally-overflowing panel re-anchors to.
pub fn min_ancestor_left(root_left: i32, lefts: &Vec<i32>) -> (m: i32)
    ensures
        m <= root_left,
        forall|i: int| 0 <= i < lefts@.len() ==> m <= #[trigger] lefts@[i],
        m == root_left || exists|i: int| 0 <= i < lefts@.len() && m == lefts@[i],
{
    let mut m: i32 = root_left;
    let n: usize = lefts.len();
    let mut i: usize = 0;
    while i < n
        invariant
            n == lefts@.len(),
            i <= n,
            m <= root_left,
            forall|j: int| 0 <= j < i ==> m <= #[trigger] lefts@[j],
            m == root_left || exists|j: int| 0 <= j < i && m == lefts@[j],
        decreases n - i,
    {
        if lefts[i] < m {
            m = lefts[i];
        }
        i = i + 1;
    }
    m
}

/// The preferred anchor of the submenu a hovered item opens: at the right
/// edge of the panel containing the item (the panel's left edge plus its
/// measured width), level with the item's measured top minus a one-pixel
/// correction that aligns the panels' borders.
pub fn submenu_anchor(panel_x: i32, panel_width: i32, item_top: i32) -> (a: (i32, i32))
    requires
        i32::MIN <= panel_x + panel_width <= i32::MAX,
        i32::MIN <= item_top - 1,
    ensures
        a.0 == panel_x + panel_width,
        a.1 == item_top - 1,
{
    (panel_x + panel_width, item_top - 1)
}

} // verus!
