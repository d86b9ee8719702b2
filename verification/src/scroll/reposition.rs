use vstd::prelude::*;

verus! {

/// `a - b`, or zero where `b` exceeds `a` (the value of an unsigned `saturating_sub`).
pub open spec fn sat_sub(a: int, b: int) -> int {
    if a >= b { a - b } else { 0 }
}

pub open spec fn min_int(a: int, b: int) -> int {
    if a <= b { a } else { b }
}

/// The largest offset at which a viewport of `viewport` lines still shows only
/// content of `extent` lines, reduced modulo 2^16 as it is narrowed to `u16`.
pub open spec fn max_scroll_u16(extent: int, viewport: int) -> int {
    sat_sub(extent, viewport) % 0x1_0000
}

/// Where a scroll offset lands once it is pulled back inside the content.
pub open spec fn repos_spec(scroll: int, extent: int, viewport: int) -> int {
    if viewport == 0 {
        0
    } else {
        min_int(scroll, max_scroll_u16(extent, viewport))
    }
}

/// The threshold actually kept: at most one line less than the viewport.
pub open spec fn effective_threshold(viewport: int, threshold: int) -> int {
    min_int(threshold, sat_sub(viewport, 1))
}

/// First step of anchoring: scroll up so that the anchor stays `threshold`
/// lines below the top edge.
pub open spec fn anchor_above(scroll: int, threshold: int, anchor: int) -> int {
    if anchor < scroll + threshold { sat_sub(anchor, threshold) } else { scroll }
}

/// Second step of anchoring: scroll down so that the anchor stays `threshold`
/// lines above the bottom edge.
pub open spec fn anchor_below(scroll: int, viewport: int, threshold: int, anchor: int) -> int {
    let room = viewport - 1 - threshold;
    if anchor > scroll + room { anchor - room } else { scroll }
}

/// The offset chosen by `repos_y_anchored`, as an integer before the final
/// narrowing to `u16`.
pub open spec fn anchored_offset(
    scroll: int,
    height: int,
    viewport: int,
    threshold: int,
    anchor: int,
) -> int {
    let t = effective_threshold(viewport, threshold);
    let s1 = anchor_above(scroll, t, anchor);
    let s2 = anchor_below(s1, viewport, t, anchor);
    min_int(s2, height - viewport)
}

pub open spec fn repos_anchored_spec(
    scroll: int,
    height: int,
    viewport: int,
    threshold: int,
    anchor: int,
) -> int {
    if viewport == 0 || height <= viewport {
        0
    } else {
        anchored_offset(scroll, height, viewport, threshold, anchor) % 0x1_0000
    }
}


/// Repositioning is idempotent: an offset that has been pulled back inside the
/// content stays where it is when pulled back again.
pub proof fn lemma_repos_idempotent(scroll: u16, extent: usize, viewport: u16)
    ensures
        repos_spec(repos_spec(scroll as int, extent as int, viewport as int), extent as int, viewport as int)
            == repos_spec(scroll as int, extent as int, viewport as int),
{
}

/// Repositioning never scrolls further than asked, and, where the largest
/// offset fits in `u16`, the viewport ends no further down than the content
/// (content that fits in the viewport scrolls to the top).
pub proof fn lemma_repos_within_content(scroll: u16, extent: usize, viewport: u16)
    requires
        viewport > 0,
        extent - viewport < 0x1_0000,
    ensures
        repos_spec(scroll as int, extent as int, viewport as int) <= scroll,
        extent <= viewport ==> repos_spec(scroll as int, extent as int, viewport as int) == 0,
        extent > viewport ==> repos_spec(scroll as int, extent as int, viewport as int) + viewport <= extent,
{
}

/// An offset that already shows only content is kept as it is.
pub proof fn lemma_repos_keeps_valid(scroll: u16, extent: usize, viewport: u16)
    requires
        viewport > 0,
        scroll + viewport <= extent,
        extent - viewport < 0x1_0000,
    ensures
        repos_spec(scroll as int, extent as int, viewport as int) == scroll,
{
}

/// Anchored repositioning keeps the anchor line in view: for an anchor inside
/// content taller than the viewport, the chosen offset shows it, and the
/// viewport ends no further down than the content.
pub proof fn lemma_anchor_in_view(
    scroll: u16,
    height: usize,
    viewport: u16,
    threshold: u16,
    anchor: usize,
)
    requires
        viewport > 0,
        height > viewport,
        height - viewport < 0x1_0000,
        anchor < height,
    ensures
        ({
            let r = repos_anchored_spec(scroll as int, height as int, viewport as int, threshold as int, anchor as int);
            &&& r <= anchor < r + viewport
            &&& r + viewport <= height
        }),
{
    let t = effective_threshold(viewport as int, threshold as int);
    let s1 = anchor_above(scroll as int, t, anchor as int);
    let s2 = anchor_below(s1, viewport as int, t, anchor as int);
    assert(s1 <= anchor);
    assert(s2 <= anchor <= s2 + viewport - 1 - t);
}

/// Where the viewport has room for `threshold` lines on each side of the
/// anchor, and the anchor is at least `threshold` lines from either end of the
/// content, anchored repositioning keeps that margin above and below it.
pub proof fn lemma_anchor_keeps_margin(
    scroll: u16,
    height: usize,
    viewport: u16,
    threshold: u16,
    anchor: usize,
)
    requires
        height > viewport,
        height - viewport < 0x1_0000,
        2 * threshold + 1 <= viewport,
        threshold <= anchor,
        anchor + threshold < height,
    ensures
        ({
            let r = repos_anchored_spec(scroll as int, height as int, viewport as int, threshold as int, anchor as int);
            &&& r + threshold <= anchor
            &&& anchor + threshold <= r + viewport - 1
        }),
{
    let t = effective_threshold(viewport as int, threshold as int);
    assert(t == threshold);
    let s1 = anchor_above(scroll as int, t, anchor as int);
    let s2 = anchor_below(s1, viewport as int, t, anchor as int);
    assert(s1 + t <= anchor);
    assert(s2 + t <= anchor <= s2 + viewport - 1 - t);
}

/// When the anchor moves above the top margin, the viewport scrolls up just far
/// enough that the anchor sits `threshold` lines below its top edge (or to the
/// top of the content), as long as the viewport leaves room for the margin
/// on both sides.
pub proof fn lemma_anchor_scrolls_up_minimally(
    scroll: u16,
    height: usize,
    viewport: u16,
    threshold: u16,
    anchor: usize,
)
    requires
        height > viewport,
        height - viewport < 0x1_0000,
        2 * threshold + 1 <= viewport,
        anchor < scroll + threshold,
    ensures
        repos_anchored_spec(scroll as int, height as int, viewport as int, threshold as int, anchor as int)
            == (if anchor < threshold {
                0
            } else if anchor - threshold <= height - viewport {
                anchor - threshold
            } else {
                height - viewport
            }),
{
}

/// Anchored repositioning moves the viewport as little as possible: of all the
/// offsets that show only content and keep the anchor `threshold` lines away
/// from both edges, the chosen one is the closest to the offset it started
/// from (where the viewport leaves room for the margin on both sides, and the
/// anchor is at least `threshold` lines from either end of the content).
pub proof fn lemma_anchor_moves_least(
    scroll: u16,
    height: usize,
    viewport: u16,
    threshold: u16,
    anchor: usize,
    other: int,
)
    requires
        height > viewport,
        height - viewport < 0x1_0000,
        2 * threshold + 1 <= viewport,
        threshold <= anchor,
        anchor + threshold < height,
        0 <= other,
        other + viewport <= height,
        other + threshold <= anchor,
        anchor + threshold <= other + viewport - 1,
    ensures
        ({
            let r = repos_anchored_spec(scroll as int, height as int, viewport as int, threshold as int, anchor as int);
            let d = if r >= scroll { r - scroll } else { scroll - r };
            let e = if other >= scroll { other - scroll } else { scroll - other };
            d <= e
        }),
{
    let t = effective_threshold(viewport as int, threshold as int);
    assert(t == threshold);
}

/// Anchored repositioning leaves an offset alone when it already shows only
/// content and already keeps the anchor the (effective) threshold away from
/// both edges.
pub proof fn lemma_anchor_stable(
    scroll: u16,
    height: usize,
    viewport: u16,
    threshold: u16,
    anchor: usize,
)
    requires
        viewport > 0,
        scroll + viewport <= height,
        height > viewport,
        scroll + effective_threshold(viewport as int, threshold as int) <= anchor,
        anchor + effective_threshold(viewport as int, threshold as int) <= scroll + viewport - 1,
    ensures
        repos_anchored_spec(scroll as int, height as int, viewport as int, threshold as int, anchor as int) == scroll,
{
}

/// `extent - viewport`, saturating at zero and narrowed to `u16` by truncation.
fn max_scroll(extent: usize, viewport: u16) -> (r: u16)
    ensures
        r == max_scroll_u16(extent as int, viewport as int),
{
    let vp = viewport as usize;
    let m: usize = if extent >= vp { extent - vp } else { 0 };
    (m % 0x1_0000) as u16
}

/// Pulls a vertical scroll offset back so that a viewport of `viewport_height`
/// lines does not run past content of `height` lines.
///
/// A viewport of height zero always scrolls to the top. The largest offset,
/// `height - viewport_height`, is narrowed to `u16` by truncation before it
/// bounds `scroll_y`.
pub fn repos_y(scroll_y: u16, height: usize, viewport_height: u16) -> (r: u16)
    ensures
        r == repos_spec(scroll_y as int, height as int, viewport_height as int),
{
    if viewport_height == 0 {
        return 0;
    }
    let m = max_scroll(height, viewport_height);
    if scroll_y <= m { scroll_y } else { m }
}

/// The horizontal counterpart of [`repos_y`]: pulls `scroll_x` back so that a
/// viewport of `viewport_width` columns does not run past `width` columns.
pub fn repos_x(scroll_x: u16, width: usize, viewport_width: u16) -> (r: u16)
    ensures
        r == repos_spec(scroll_x as int, width as int, viewport_width as int),
{
    if viewport_width == 0 {
        return 0;
    }
    let m = max_scroll(width, viewport_width);
    if scroll_x <= m { scroll_x } else { m }
}

/// Repositions a vertical scroll offset so that line `anchor_line` stays in
/// view, at least `threshold_lines` lines away from the top and bottom edges
/// where the viewport leaves room for it, and so that the viewport does not
/// run past the content.
///
/// Content that fits in the viewport, or a viewport of height zero, scrolls to
/// the top.
pub fn repos_y_anchored(
    scroll_y: u16,
    height: usize,
    viewport_height: u16,
    threshold_lines: u16,
    anchor_line: usize,
) -> (r: u16)
    ensures
        r == repos_anchored_spec(
            scroll_y as int,
            height as int,
            viewport_height as int,
            threshold_lines as int,
            anchor_line as int,
        ),
{
    let vh = viewport_height as usize;
    if vh == 0 {
        return 0;
    }
    let threshold: usize = if (threshold_lines as usize) <= vh - 1 {
        threshold_lines as usize
    } else {
        vh - 1
    };

    if height <= vh {
        return 0;
    }

    let mut scroll: usize = scroll_y as usize;
    if anchor_line < scroll + threshold {
        scroll = if anchor_line >= threshold { anchor_line - threshold } else { 0 };
    }
    assert(scroll <= 0xffff);
    let room: usize = vh - 1 - threshold;
    if anchor_line > scroll + room {
        scroll = anchor_line - room;
    }

    let max_scroll = height - vh;
    if max_scroll < scroll {
        scroll = max_scroll;
    }
    (scroll % 0x1_0000) as u16
}

} // verus!
