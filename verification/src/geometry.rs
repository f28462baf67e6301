use vstd::prelude::*;

verus! {

/// An axis-aligned rectangle of terminal cells.
#[derive(Clone, Copy, Debug, PartialEq, Eq, Structural)]
pub struct Rect {
    pub x: u16,
    pub y: u16,
    pub width: u16,
    pub height: u16,
}

impl Rect {
    /// The empty rectangle at the origin.
    pub fn zero() -> (r: Rect)
        ensures
            r == (Rect { x: 0, y: 0, width: 0, height: 0 }),
    {
        Rect { x: 0, y: 0, width: 0, height: 0 }
    }

    /// The first column of the rectangle.
    pub fn left(&self) -> (r: u16)
        ensures
            r == self.x,
    {
        self.x
    }

    /// The first row of the rectangle.
    pub fn top(&self) -> (r: u16)
        ensures
            r == self.y,
    {
        self.y
    }

    /// The column just past the right edge, held at the largest column there is.
    pub open spec fn spec_right(&self) -> int {
        if self.x + self.width > u16::MAX {
            u16::MAX as int
        } else {
            self.x + self.width
        }
    }

    /// The column just past the right edge, held at the largest column there is.
    pub fn right(&self) -> (r: u16)
        ensures
            r as int == self.spec_right(),
    {
        self.x.saturating_add(self.width)
    }
}

impl Default for Rect {
    fn default() -> (r: Rect)
        ensures
            r == (Rect { x: 0, y: 0, width: 0, height: 0 }),
    {
        Rect::zero()
    }
}

} // verus!
