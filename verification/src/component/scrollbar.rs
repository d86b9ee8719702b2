use vstd::prelude::*;

use crate::base::area::Area;
use crate::scroll::reposition::{min_int, sat_sub};

verus! {

/// What a scrollbar shows: the length of the content, the viewport it scrolls
/// (whose height or width is the visible length), and the position of the
/// viewport in the content.
#[derive(Debug, Clone)]
pub struct ScrollbarParams {
    pub content_length: usize,
    pub viewport: Area,
    pub position: usize,
}

/// The values a scrollbar is drawn with.
#[derive(Debug, Clone, Copy, PartialEq, Eq, Structural)]
pub struct ScrollbarMetrics {
    /// Position of the thumb, at most `content_length - 1`.
    pub position: usize,
    /// Number of distinct positions: one more than the largest offset.
    pub content_length: usize,
    /// The visible length.
    pub viewport_content_length: usize,
}

/// The largest offset of a viewport of `viewport_length` over content of
/// `content_length`.
pub open spec fn max_offset(content_length: int, viewport_length: int) -> int {
    sat_sub(content_length, viewport_length)
}

/// The scrollbar's values for content of `content_length` seen through a
/// viewport of `viewport_length` at `position`: the position is held at the
/// largest offset, and the thumb ranges over one more value than that offset.
///
/// The largest offset must be below `usize::MAX`, so that the range of
/// positions can be counted.
pub fn scrollbar_metrics(content_length: usize, viewport_length: usize, position: usize) -> (r: ScrollbarMetrics)
    requires
        max_offset(content_length as int, viewport_length as int) < usize::MAX,
    ensures
        r.position == min_int(position as int, max_offset(content_length as int, viewport_length as int)),
        r.content_length == max_offset(content_length as int, viewport_length as int) + 1,
        r.viewport_content_length == viewport_length,
{
    let max_offset: usize = if content_length >= viewport_length { content_length - viewport_length } else { 0 };
    ScrollbarMetrics {
        position: if position <= max_offset { position } else { max_offset },
        content_length: max_offset + 1,
        viewport_content_length: viewport_length,
    }
}

/// The thumb's position always names one of the counted positions.
pub proof fn lemma_thumb_in_range(content_length: usize, viewport_length: usize, position: usize)
    requires
        max_offset(content_length as int, viewport_length as int) < usize::MAX,
    ensures
        min_int(position as int, max_offset(content_length as int, viewport_length as int))
            < max_offset(content_length as int, viewport_length as int) + 1,
        content_length <= viewport_length ==> min_int(position as int, max_offset(content_length as int, viewport_length as int)) == 0,
{
}

impl ScrollbarParams {
    /// The scrollbar's values, measuring the viewport along its height for a
    /// vertical scrollbar and along its width otherwise (see
    /// [`scrollbar_metrics`]).
    ///
    /// Where the viewport is shared, its size is read from the cell: the result
    /// is that of some visible length that fits in `u16`, which the contract
    /// leaves open.
    pub fn metrics(&self, vertical: bool) -> (r: Option<ScrollbarMetrics>)
        ensures
            self.viewport.held() matches Some(a) ==> r == metrics_for(
                self.content_length,
                if vertical { a.height as usize } else { a.width as usize },
                self.position,
            ),
            exists|viewport_length: usize|
                viewport_length <= u16::MAX && r == #[trigger] metrics_for(self.content_length, viewport_length, self.position),
            r is None ==> self.content_length == usize::MAX,
            r matches Some(m) ==> m.position <= self.position && m.position < m.content_length,
    {
        let area = self.viewport.get();
        let viewport_length: usize = if vertical { area.height as usize } else { area.width as usize };
        let r = if self.content_length >= viewport_length && self.content_length - viewport_length == usize::MAX {
            None
        } else {
            Some(scrollbar_metrics(self.content_length, viewport_length, self.position))
        };
        assert(r == metrics_for(self.content_length, viewport_length, self.position));
        r
    }
}

/// [`scrollbar_metrics`] where it is defined, `None` where the range of
/// positions cannot be counted.
pub open spec fn metrics_for(content_length: usize, viewport_length: usize, position: usize) -> Option<ScrollbarMetrics> {
    let m = max_offset(content_length as int, viewport_length as int);
    if m == usize::MAX {
        None
    } else {
        Some(ScrollbarMetrics {
            position: min_int(position as int, m) as usize,
            content_length: (m + 1) as usize,
            viewport_content_length: viewport_length,
        })
    }
}

} // verus!
