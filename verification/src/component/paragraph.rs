use vstd::prelude::*;

use crate::base::area::Area;
use crate::scroll::action::{offset_spec, saturating_shift, scroll_horizontal, scroll_vertical, ScrollAction};
use crate::scroll::reposition::repos_spec;

verus! {

/// The state of a paragraph view: how far it is scrolled (`scroll.0` lines
/// down, `scroll.1` columns right) and the region it was last laid out in.
#[derive(Debug)]
pub struct ParagraphState {
    pub scroll: (u16, u16),
    pub area: Area,
}

/// The offset after scrolling `scroll` by `action` over content of `extent`
/// lines (or columns) in a viewport of `viewport` lines (or columns).
pub open spec fn scrolled_offset(scroll: u16, action: ScrollAction, extent: usize, viewport: u16) -> int {
    repos_spec(saturating_shift(scroll as int, offset_spec(action, viewport as int)), extent as int, viewport as int)
}

impl Clone for ParagraphState {
    fn clone(&self) -> (r: Self)
        ensures
            r.scroll == self.scroll,
    {
        ParagraphState { scroll: (self.scroll.0, self.scroll.1), area: self.area.clone() }
    }
}

impl Default for ParagraphState {
    fn default() -> (r: Self)
        ensures
            r.scroll == (0u16, 0u16),
            r.area == Area::Literal(crate::layout::Rect { x: 0, y: 0, width: 0, height: 0 }),
    {
        ParagraphState { scroll: (0, 0), area: Area::default() }
    }
}

impl ParagraphState {
    /// Scrolls back to the top-left corner.
    pub fn reset(&mut self)
        ensures
            final(self).scroll == (0u16, 0u16),
            final(self).area == old(self).area,
    {
        self.scroll = (0, 0);
    }

    /// Scrolls vertically by `action` through content of `height` lines, in a
    /// viewport as tall as the paragraph's area (see [`scroll_vertical`]).
    ///
    /// Where the area is shared, its height is read from the cell, which the
    /// contract leaves open.
    pub fn scroll_vertical(&mut self, action: ScrollAction, height: usize)
        ensures
            old(self).area.held() matches Some(a) ==> final(self).scroll.0 == scrolled_offset(
                old(self).scroll.0,
                action,
                height,
                a.height,
            ),
            exists|viewport: u16|
                final(self).scroll.0 == #[trigger] scrolled_offset(old(self).scroll.0, action, height, viewport),
            final(self).scroll.1 == old(self).scroll.1,
            final(self).area == old(self).area,
    {
        let viewport = self.area.get().height;
        let before = self.scroll.0;
        self.scroll.0 = scroll_vertical(action, before, height, viewport);
        assert(self.scroll.0 == scrolled_offset(before, action, height, viewport));
    }

    /// Scrolls horizontally by `action` through content of `width` columns,
    /// in a viewport as wide as the paragraph's area (see [`scroll_horizontal`]).
    ///
    /// Where the area is shared, its width is read from the cell, which the
    /// contract leaves open.
    pub fn scroll_horizontal(&mut self, action: ScrollAction, width: usize)
        ensures
            old(self).area.held() matches Some(a) ==> final(self).scroll.1 == scrolled_offset(
                old(self).scroll.1,
                action,
                width,
                a.width,
            ),
            exists|viewport: u16|
                final(self).scroll.1 == #[trigger] scrolled_offset(old(self).scroll.1, action, width, viewport),
            final(self).scroll.0 == old(self).scroll.0,
            final(self).area == old(self).area,
    {
        let viewport = self.area.get().width;
        let before = self.scroll.1;
        self.scroll.1 = scroll_horizontal(action, before, width, viewport);
        assert(self.scroll.1 == scrolled_offset(before, action, width, viewport));
    }
}

} // verus!
