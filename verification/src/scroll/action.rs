use vstd::prelude::*;

use crate::scroll::reposition::{repos_anchored_spec, repos_spec, repos_x, repos_y, repos_y_anchored};

verus! {

/// How far a scroll moves: a fixed number of lines, or a percentage of the
/// viewport. Negative amounts move up (or left).
#[derive(Debug, Clone, Copy, PartialEq, Eq, Structural)]
pub enum ScrollAction {
    Fixed(i16),
    Viewport(i16),
}

/// `percent`% of `extent`, truncated toward zero and saturated to the range of `i16`.
pub open spec fn percent_of(extent: int, percent: int) -> int {
    let p = extent * percent;
    let q = if p >= 0 { p / 100 } else { -((-p) / 100) };
    if q > 0x7fff { 0x7fff } else if q < -0x8000 { -0x8000 } else { q }
}

/// The signed number of lines (or columns) that `action` moves over a
/// viewport of `viewport` lines.
pub open spec fn offset_spec(action: ScrollAction, viewport: int) -> int {
    match action {
        ScrollAction::Fixed(n) => n as int,
        ScrollAction::Viewport(n) => percent_of(viewport, n as int),
    }
}

/// `scroll + offset`, held inside the range of `u16`.
pub open spec fn saturating_shift(scroll: int, offset: int) -> int {
    let s = scroll + offset;
    if s < 0 { 0 } else if s > 0xffff { 0xffff } else { s }
}

impl ScrollAction {
    /// The signed distance this action moves over a viewport of `viewport`
    /// lines: `Fixed(n)` moves `n`; `Viewport(n)` moves `n`% of the viewport,
    /// truncated toward zero and saturated to `i16`.
    pub fn offset(self, viewport: u16) -> (r: i16)
        ensures
            r == offset_spec(self, viewport as int),
    {
        match self {
            ScrollAction::Fixed(n) => n,
            ScrollAction::Viewport(n) => {
                let magnitude: u64 = if n >= 0 { n as u64 } else { (-(n as i32)) as u64 };
                assert(viewport as int * magnitude as int <= 0xffff * 0x8000) by (nonlinear_arith)
                    requires
                        viewport <= 0xffff,
                        magnitude <= 0x8000,
                ;
                let p: u64 = viewport as u64 * magnitude;
                let q: u64 = p / 100;
                proof {
                    let pi = viewport as int * n as int;
                    if n >= 0 {
                        assert(pi == p);
                    } else {
                        assert(pi == -(p as int)) by (nonlinear_arith)
                            requires
                                pi == viewport as int * n as int,
                                p == viewport as int * magnitude as int,
                                magnitude == -n,
                        ;
                    }
                }
                if n >= 0 {
                    if q > 0x7fff { 0x7fff } else { q as i16 }
                } else {
                    if q > 0x8000 { -0x8000 } else { -(q as i32) as i16 }
                }
            },
        }
    }
}


/// Scrolling by `Fixed(0)` only repositions the offset.
pub proof fn lemma_scroll_by_nothing(scroll: u16, extent: usize, viewport: u16)
    ensures
        repos_spec(saturating_shift(scroll as int, offset_spec(ScrollAction::Fixed(0), viewport as int)), extent as int, viewport as int)
            == repos_spec(scroll as int, extent as int, viewport as int),
{
}

/// A scroll by a whole viewport (`Viewport(100)` or `Viewport(-100)`) moves
/// exactly the viewport's height, for viewports that fit the range of `i16`.
pub proof fn lemma_full_viewport_page(viewport: u16)
    requires
        viewport <= 0x7fff,
    ensures
        offset_spec(ScrollAction::Viewport(100), viewport as int) == viewport,
        offset_spec(ScrollAction::Viewport(-100i16), viewport as int) == -viewport,
{
    let v = viewport as int;
    assert((v * 100) / 100 == v) by (nonlinear_arith);
    assert(v * -100 == -(v * 100)) by (nonlinear_arith);
}

/// Scrolling is monotone in the distance: from the same offset, a move by a
/// smaller signed distance never ends further down than a move by a larger one.
pub proof fn lemma_scroll_monotone(scroll: u16, a: i16, b: i16, extent: usize, viewport: u16)
    requires
        a <= b,
    ensures
        repos_spec(saturating_shift(scroll as int, offset_spec(ScrollAction::Fixed(a), viewport as int)), extent as int, viewport as int)
            <= repos_spec(saturating_shift(scroll as int, offset_spec(ScrollAction::Fixed(b), viewport as int)), extent as int, viewport as int),
{
}

/// A fixed scroll that stays inside the content is undone by the opposite
/// scroll.
pub proof fn lemma_scroll_round_trip(scroll: u16, n: i16, extent: usize, viewport: u16)
    requires
        viewport > 0,
        n > -0x8000,
        extent - viewport < 0x1_0000,
        scroll + viewport <= extent,
        0 <= scroll + n,
        scroll + n + viewport <= extent,
    ensures
        ({
            let there = repos_spec(saturating_shift(scroll as int, offset_spec(ScrollAction::Fixed(n), viewport as int)), extent as int, viewport as int);
            &&& there == scroll + n
            &&& repos_spec(saturating_shift(there, offset_spec(ScrollAction::Fixed((-n) as i16), viewport as int)), extent as int, viewport as int)
                == scroll
        }),
{
}

fn shift(scroll: u16, offset: i16) -> (r: u16)
    ensures
        r == saturating_shift(scroll as int, offset as int),
{
    let s: i32 = scroll as i32 + offset as i32;
    if s < 0 { 0 } else if s > 0xffff { 0xffff } else { s as u16 }
}

/// The vertical offset after `action` is applied to `scroll_y`: the move is
/// held inside `u16`, then the offset is pulled back inside content of
/// `height` lines as [`repos_y`] does.
pub fn scroll_vertical(action: ScrollAction, scroll_y: u16, height: usize, viewport_height: u16) -> (r: u16)
    ensures
        r == repos_spec(
            saturating_shift(scroll_y as int, offset_spec(action, viewport_height as int)),
            height as int,
            viewport_height as int,
        ),
{
    let offset = action.offset(viewport_height);
    repos_y(shift(scroll_y, offset), height, viewport_height)
}

/// As [`scroll_vertical`], but the result keeps line `anchor_line` in view as
/// [`repos_y_anchored`] does.
pub fn scroll_vertical_anchored(
    action: ScrollAction,
    scroll_y: u16,
    height: usize,
    viewport_height: u16,
    threshold_lines: u16,
    anchor_line: usize,
) -> (r: u16)
    ensures
        r == repos_anchored_spec(
            saturating_shift(scroll_y as int, offset_spec(action, viewport_height as int)),
            height as int,
            viewport_height as int,
            threshold_lines as int,
            anchor_line as int,
        ),
{
    let offset = action.offset(viewport_height);
    repos_y_anchored(shift(scroll_y, offset), height, viewport_height, threshold_lines, anchor_line)
}

/// The horizontal offset after `action` is applied to `scroll_x`, pulled back
/// inside content of `width` columns as [`repos_x`] does.
pub fn scroll_horizontal(action: ScrollAction, scroll_x: u16, width: usize, viewport_width: u16) -> (r: u16)
    ensures
        r == repos_spec(
            saturating_shift(scroll_x as int, offset_spec(action, viewport_width as int)),
            width as int,
            viewport_width as int,
        ),
{
    let offset = action.offset(viewport_width);
    repos_x(shift(scroll_x, offset), width, viewport_width)
}

} // verus!
