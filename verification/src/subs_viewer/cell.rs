//! Plain data of the table cell widget: which separator edges a cell draws.
//! The widget itself, its layout and event handling belong to the GUI and
//! stay outside the library.

use vstd::prelude::*;

verus! {

/// The separator edges of a table cell: a line along the right edge, along
/// the bottom edge, both, or neither.
#[derive(Clone, Copy, Debug)]
pub struct Directions {
    right: bool,
    bottom: bool,
}

impl Directions {
    /// Whether the right separator is drawn.
    pub closed spec fn spec_is_right(self) -> bool {
        self.right
    }

    /// Whether the bottom separator is drawn.
    pub closed spec fn spec_is_bottom(self) -> bool {
        self.bottom
    }

    /// A cell border with no separators.
    pub fn new() -> (r: Self)
        ensures
            !r.spec_is_right(),
            !r.spec_is_bottom(),
    {
        Self { right: false, bottom: false }
    }

    /// Adds the right separator, keeping the bottom edge as it was.
    pub fn right(self) -> (r: Self)
        ensures
            r.spec_is_right(),
            r.spec_is_bottom() == self.spec_is_bottom(),
    {
        Self { right: true, bottom: self.bottom }
    }

    /// Adds the bottom separator, keeping the right edge as it was.
    pub fn bottom(self) -> (r: Self)
        ensures
            r.spec_is_bottom(),
            r.spec_is_right() == self.spec_is_right(),
    {
        Self { right: self.right, bottom: true }
    }

    /// Whether the right separator is drawn.
    pub fn is_right(&self) -> (r: bool)
        ensures
            r == self.spec_is_right(),
    {
        self.right
    }

    /// Whether the bottom separator is drawn.
    pub fn is_bottom(&self) -> (r: bool)
        ensures
            r == self.spec_is_bottom(),
    {
        self.bottom
    }
}

} // verus!
