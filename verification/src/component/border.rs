use vstd::prelude::*;

use crate::layout::{rect_spec, Rect};

verus! {

/// The edge of a block's border on which a widget is placed.
#[derive(Debug, Clone, Copy, PartialEq, Eq, Structural)]
pub enum BorderOrientation {
    Top,
    Bottom,
    Left,
    Right,
}

/// The one-cell strip along edge `orientation` of `area`: its first or last
/// row, or its first or last column, or `None` where `area` has no such row
/// (no height) or column (no width).
pub open spec fn border_strip_spec(area: Rect, orientation: BorderOrientation) -> Option<Rect> {
    match orientation {
        BorderOrientation::Top => if area.y < area.bottom_spec() {
            Some(rect_spec(area.x, area.y, area.width, 1))
        } else {
            None
        },
        BorderOrientation::Bottom => if area.y < area.bottom_spec() {
            Some(rect_spec(area.x, (area.bottom_spec() - 1) as u16, area.width, 1))
        } else {
            None
        },
        BorderOrientation::Left => if area.x < area.right_spec() {
            Some(rect_spec(area.x, area.y, 1, area.height))
        } else {
            None
        },
        BorderOrientation::Right => if area.x < area.right_spec() {
            Some(rect_spec((area.right_spec() - 1) as u16, area.y, 1, area.height))
        } else {
            None
        },
    }
}

/// The strip of `area` on which a widget placed on edge `orientation` of a
/// block's border is laid out; `None` where the block has no such row or
/// column, in which case the widget is dropped from the block.
pub fn border_strip(area: Rect, orientation: BorderOrientation) -> (r: Option<Rect>)
    ensures
        r == border_strip_spec(area, orientation),
{
    match orientation {
        BorderOrientation::Top => {
            let bottom = area.bottom();
            if area.y < bottom {
                Some(Rect::new(area.x, area.y, area.width, 1))
            } else {
                None
            }
        },
        BorderOrientation::Bottom => {
            let bottom = area.bottom();
            if area.y < bottom {
                Some(Rect::new(area.x, bottom - 1, area.width, 1))
            } else {
                None
            }
        },
        BorderOrientation::Left => {
            let right = area.right();
            if area.x < right {
                Some(Rect::new(area.x, area.y, 1, area.height))
            } else {
                None
            }
        },
        BorderOrientation::Right => {
            let right = area.right();
            if area.x < right {
                Some(Rect::new(right - 1, area.y, 1, area.height))
            } else {
                None
            }
        },
    }
}

/// Where a widget placed on edge `orientation` of a block's border is drawn:
/// `place` chooses its region from the edge's strip. Without a strip (the
/// block has no such row or column) `place` is not called, and a `None` from
/// either step means the widget is dropped from the block.
pub fn place_on_border<F>(area: Rect, orientation: BorderOrientation, place: F) -> (r: Option<Rect>)
    where F: FnOnce(Rect) -> Option<Rect>,
    requires
        border_strip_spec(area, orientation) matches Some(s) ==> place.requires((s,)),
    ensures
        match border_strip_spec(area, orientation) {
            Some(s) => place.ensures((s,), r),
            None => r is None,
        },
{
    match border_strip(area, orientation) {
        Some(strip) => place(strip),
        None => None,
    }
}

/// Each strip is the named edge of the area: the top strip is its first row,
/// the bottom strip its last row, the left strip its first column and the right
/// strip its last column, each spanning the area's full width (or height).
pub proof fn lemma_strip_is_the_edge(area: Rect, orientation: BorderOrientation)
    ensures
        border_strip_spec(area, orientation) matches Some(s) ==> match orientation {
            BorderOrientation::Top => s.y == area.y && s.x == area.x && s.right_spec() == area.right_spec()
                && s.height == 1,
            BorderOrientation::Bottom => s.y + 1 == area.bottom_spec() && s.x == area.x
                && s.right_spec() == area.right_spec() && s.height == 1,
            BorderOrientation::Left => s.x == area.x && s.y == area.y && s.bottom_spec() == area.bottom_spec()
                && s.width == 1,
            BorderOrientation::Right => s.x + 1 == area.right_spec() && s.y == area.y
                && s.bottom_spec() == area.bottom_spec() && s.width == 1,
        },
        area.width > 0 && area.height > 0 && area.x + area.width <= u16::MAX && area.y + area.height <= u16::MAX
            ==> border_strip_spec(area, orientation) is Some,
{
}

/// Every strip lies inside its area and is one cell thick across the edge:
/// a row strip spans the area's width, a column strip its height.
pub proof fn lemma_strip_inside(area: Rect, orientation: BorderOrientation)
    ensures
        border_strip_spec(area, orientation) matches Some(s) ==> {
            &&& area.x <= s.x
            &&& s.right_spec() <= area.right_spec()
            &&& area.y <= s.y
            &&& s.bottom_spec() <= area.bottom_spec()
            &&& (orientation == BorderOrientation::Top || orientation == BorderOrientation::Bottom)
                ==> s.height == 1 && s.x == area.x && s.right_spec() == area.right_spec()
            &&& (orientation == BorderOrientation::Left || orientation == BorderOrientation::Right)
                ==> s.width == 1 && s.y == area.y && s.bottom_spec() == area.bottom_spec()
        },
        border_strip_spec(area, orientation) is None <==> (
            if orientation == BorderOrientation::Top || orientation == BorderOrientation::Bottom {
                area.y >= area.bottom_spec()
            } else {
                area.x >= area.right_spec()
            }
        ),
{
}

} // verus!
