use vstd::prelude::*;

verus! {

/// An axis-aligned rectangle in client coordinates. Width and height are
/// always derived from the four edges, never stored. A rectangle may have
/// `right < left` or `bottom < top` transiently, while a resize negotiation
/// is in progress.
#[derive(Debug, Clone, Copy, PartialEq, Eq, Structural)]
pub struct Rect {
    pub left: i32,
    pub top: i32,
    pub right: i32,
    pub bottom: i32,
}

impl Rect {
    /// The horizontal extent, `right - left`, as a mathematical integer.
    pub open spec fn spec_width(self) -> int {
        self.right - self.left
    }

    /// The vertical extent, `bottom - top`, as a mathematical integer.
    pub open spec fn spec_height(self) -> int {
        self.bottom - self.top
    }

    /// Both derived extents fit in the signed 32-bit range, so the
    /// executable accessors below are defined.
    pub open spec fn dims_in_range(self) -> bool {
        &&& i32::MIN <= self.spec_width() <= i32::MAX
        &&& i32::MIN <= self.spec_height() <= i32::MAX
    }

    /// The rectangle spans a non-empty area.
    pub open spec fn is_positive(self) -> bool {
        self.spec_width() > 0 && self.spec_height() > 0
    }

    pub fn width(&self) -> (w: i32)
        requires
            i32::MIN <= self.spec_width() <= i32::MAX,
        ensures
            w == self.spec_width(),
    {
        self.right - self.left
    }

    pub fn height(&self) -> (h: i32)
        requires
            i32::MIN <= self.spec_height() <= i32::MAX,
        ensures
            h == self.spec_height(),
    {
        self.bottom - self.top
    }
}

impl Default for Rect {
    /// The degenerate rectangle with all four edges at the origin.
    fn default() -> (r: Rect)
        ensures
            r == (Rect { left: 0, top: 0, right: 0, bottom: 0 }),
    {
        Rect { left: 0, top: 0, right: 0, bottom: 0 }
    }
}

} // verus!
