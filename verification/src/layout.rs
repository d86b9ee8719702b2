use vstd::prelude::*;

verus! {

/// A cell position on the terminal: column `x`, row `y`.
#[derive(Debug, Clone, Copy, Default, PartialEq, Eq, Hash, Structural)]
pub struct Position {
    pub x: u16,
    pub y: u16,
}

/// A rectangular region of the terminal: its top-left cell and its size.
#[derive(Debug, Clone, Copy, Default, PartialEq, Eq, Hash, Structural)]
pub struct Rect {
    pub x: u16,
    pub y: u16,
    pub width: u16,
    pub height: u16,
}

/// `a + b`, held at `u16::MAX`.
pub open spec fn sat_add_u16(a: int, b: int) -> int {
    if a + b > 0xffff { 0xffff } else { a + b }
}

/// The region `Rect::new` builds: its size shrunk so that neither edge
/// reaches past `u16::MAX`.
pub open spec fn rect_spec(x: u16, y: u16, width: u16, height: u16) -> Rect {
    Rect {
        x,
        y,
        width: (sat_add_u16(x as int, width as int) - x) as u16,
        height: (sat_add_u16(y as int, height as int) - y) as u16,
    }
}

impl Position {
    pub fn new(x: u16, y: u16) -> (r: Self)
        ensures
            r == (Position { x, y }),
    {
        Position { x, y }
    }
}

impl Rect {
    /// The first column right of the region, held at `u16::MAX`.
    pub open spec fn right_spec(self) -> int {
        sat_add_u16(self.x as int, self.width as int)
    }

    /// The first row below the region, held at `u16::MAX`.
    pub open spec fn bottom_spec(self) -> int {
        sat_add_u16(self.y as int, self.height as int)
    }

    /// Whether `position` lies inside the region.
    pub open spec fn contains_spec(self, position: Position) -> bool {
        self.x <= position.x < self.right_spec() && self.y <= position.y < self.bottom_spec()
    }

    /// A region at (`x`, `y`) of the given size, shrunk where it would reach
    /// past `u16::MAX` on either axis.
    pub fn new(x: u16, y: u16, width: u16, height: u16) -> (r: Self)
        ensures
            r == rect_spec(x, y, width, height),
    {
        let w: u16 = if width <= 0xffff - x { width } else { 0xffff - x };
        let h: u16 = if height <= 0xffff - y { height } else { 0xffff - y };
        Rect { x, y, width: w, height: h }
    }

    pub fn right(self) -> (r: u16)
        ensures
            r == self.right_spec(),
    {
        if self.width <= 0xffff - self.x { self.x + self.width } else { 0xffff }
    }

    pub fn bottom(self) -> (r: u16)
        ensures
            r == self.bottom_spec(),
    {
        if self.height <= 0xffff - self.y { self.y + self.height } else { 0xffff }
    }

    /// Whether `position` lies inside the region.
    pub fn contains(self, position: Position) -> (r: bool)
        ensures
            r == self.contains_spec(position),
    {
        position.x >= self.x && position.x < self.right() && position.y >= self.y && position.y
            < self.bottom()
    }
}

} // verus!
