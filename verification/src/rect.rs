//! Axis-aligned rectangles on the cell grid, as hitboxes use them.

use vstd::prelude::*;

verus! {

/// A rectangle of grid cells: the cells `x .. x + width` by `y .. y + height`.
#[derive(Clone, Copy, PartialEq, Eq, Debug, Structural)]
pub struct Rect {
    pub x: u16,
    pub y: u16,
    pub width: u16,
    pub height: u16,
}

impl Rect {
    /// First column to the right of the rectangle, held within `u16`.
    pub open spec fn right(self) -> int {
        if self.x + self.width > u16::MAX {
            u16::MAX as int
        } else {
            self.x + self.width
        }
    }

    /// First row below the rectangle, held within `u16`.
    pub open spec fn bottom(self) -> int {
        if self.y + self.height > u16::MAX {
            u16::MAX as int
        } else {
            self.y + self.height
        }
    }

    /// The two rectangles share at least one cell.
    pub open spec fn overlaps(self, other: Rect) -> bool {
        &&& self.x < other.x + other.width
        &&& self.x + self.width > other.x
        &&& self.y < other.y + other.height
        &&& self.y + self.height > other.y
    }

    /// The cell `(x, y)` lies in the rectangle.
    pub open spec fn holds(self, x: u16, y: u16) -> bool {
        &&& self.x <= x < self.right()
        &&& self.y <= y < self.bottom()
    }

    /// Whether the cell `(x, y)` lies in the rectangle.
    pub fn contains(self, x: u16, y: u16) -> (r: bool)
        ensures
            r == self.holds(x, y),
    {
        rect_contains(self, x, y)
    }
}

/// Tells whether two hitboxes collide: whether the rectangles overlap.
pub fn are_sprites_colliding(rect1: Rect, rect2: Rect) -> (r: bool)
    ensures
        r == rect1.overlaps(rect2),
{
    let left1: u32 = rect1.x as u32;
    let left2: u32 = rect2.x as u32;
    let top1: u32 = rect1.y as u32;
    let top2: u32 = rect2.y as u32;
    left1 < left2 + rect2.width as u32 && left1 + rect1.width as u32 > left2 && top1 < top2
        + rect2.height as u32 && top1 + rect1.height as u32 > top2
}

/// Calls `ratatui::layout::Rect::contains` on a rectangle with the same four
/// fields and the position `(x, y)`. That function compares the position with
/// the rectangle's left and top edge and with its `right()` and `bottom()`,
/// which are saturating sums: the contract repeats these comparisons.
#[verifier::external_body]
fn rect_contains(rect: Rect, x: u16, y: u16) -> (r: bool)
    ensures
        r == rect.holds(x, y),
{
    let outer = ratatui::layout::Rect {
        x: rect.x,
        y: rect.y,
        width: rect.width,
        height: rect.height,
    };
    outer.contains(ratatui::layout::Position { x, y })
}

} // verus!
