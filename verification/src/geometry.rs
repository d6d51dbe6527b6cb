//! Screen coordinates and rectangular regions, measured in terminal cells.

use vstd::prelude::*;

verus! {

/// A cell of the screen, counted from the top left corner.
#[derive(Clone, Copy, Debug, PartialEq, Eq, Structural)]
pub struct Position {
    pub x: u16,
    pub y: u16,
}

/// A rectangle of cells: its top left corner and its extent.
#[derive(Clone, Copy, Debug, PartialEq, Eq, Structural)]
pub struct Rect {
    pub x: u16,
    pub y: u16,
    pub width: u16,
    pub height: u16,
}

impl Position {
    pub fn new(x: u16, y: u16) -> (p: Position)
        ensures
            p == (Position { x, y }),
    {
        Position { x, y }
    }
}

impl Rect {
    /// The first column to the right of the rectangle, held at the largest
    /// column a screen can have.
    pub open spec fn spec_right(self) -> u16 {
        if self.x + self.width > u16::MAX {
            u16::MAX
        } else {
            (self.x + self.width) as u16
        }
    }

    /// The first row below the rectangle, held at the largest row a screen
    /// can have.
    pub open spec fn spec_bottom(self) -> u16 {
        if self.y + self.height > u16::MAX {
            u16::MAX
        } else {
            (self.y + self.height) as u16
        }
    }

    /// Whether the cell `p` lies inside the rectangle: on or after its left
    /// and top edges, before its right and bottom ends.
    pub open spec fn spec_contains(self, p: Position) -> bool {
        &&& self.x <= p.x < self.spec_right()
        &&& self.y <= p.y < self.spec_bottom()
    }

    /// The number of columns of the rectangle that a screen can have: its
    /// width, as far as the largest column allows.
    pub open spec fn spec_columns(self) -> int {
        self.spec_right() - self.x
    }

    /// The number of rows of the rectangle that a screen can have: its
    /// height, as far as the largest row allows.
    pub open spec fn spec_rows(self) -> int {
        self.spec_bottom() - self.y
    }

    /// Whether the rectangle lies inside `outer`: it starts on or after the
    /// left and top edges of `outer` and ends on or before its right and
    /// bottom ends.
    pub open spec fn within(self, outer: Rect) -> bool {
        &&& outer.x <= self.x
        &&& self.spec_right() <= outer.spec_right()
        &&& outer.y <= self.y
        &&& self.spec_bottom() <= outer.spec_bottom()
    }

    pub fn new(x: u16, y: u16, width: u16, height: u16) -> (r: Rect)
        ensures
            r == (Rect { x, y, width, height }),
    {
        Rect { x, y, width, height }
    }

    #[verifier::when_used_as_spec(spec_right)]
    pub fn right(self) -> (r: u16)
        ensures
            r == self.spec_right(),
    {
        self.x.saturating_add(self.width)
    }

    #[verifier::when_used_as_spec(spec_bottom)]
    pub fn bottom(self) -> (r: u16)
        ensures
            r == self.spec_bottom(),
    {
        self.y.saturating_add(self.height)
    }

    #[verifier::when_used_as_spec(spec_contains)]
    pub fn contains(self, p: Position) -> (inside: bool)
        ensures
            inside == self.spec_contains(p),
    {
        p.x >= self.x && p.x < self.right() && p.y >= self.y && p.y < self.bottom()
    }
}

} // verus!
