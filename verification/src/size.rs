//! The dimensions of the visible terminal area.

use vstd::prelude::*;

verus! {

/// Width and height of the visible terminal area in character cells. The
/// authoritative copy lives on the viewport and is refreshed on resize
/// events.
#[derive(Clone, Copy, Debug, PartialEq, Eq, Structural)]
pub struct Size {
    pub width: usize,
    pub height: usize,
}

impl Default for Size {
    fn default() -> (r: Self)
        ensures
            r == (Size { width: 0, height: 0 }),
    {
        Size { width: 0, height: 0 }
    }
}

} // verus!
