//! Logical buffer coordinates and their projection onto the terminal.

use vstd::prelude::*;

verus! {

/// A logical (column, row) position in buffer space. Both coordinates are
/// unbounded by the viewport: they may point past the end of a line or past
/// the last line of the buffer.
#[derive(Clone, Copy, Debug, PartialEq, Eq, Structural)]
pub struct Location {
    pub x: usize,
    pub y: usize,
}

/// A (column, row) cell on the terminal surface, always relative to the
/// top-left corner of the visible window.
#[derive(Clone, Copy, Debug, PartialEq, Eq, Structural)]
pub struct Position {
    pub col: usize,
    pub row: usize,
}

impl Default for Location {
    fn default() -> (r: Self)
        ensures
            r == (Location { x: 0, y: 0 }),
    {
        Location { x: 0, y: 0 }
    }
}

impl Default for Position {
    fn default() -> (r: Self)
        ensures
            r == (Position { col: 0, row: 0 }),
    {
        Position { col: 0, row: 0 }
    }
}

impl Location {
    /// Componentwise difference, saturating at zero: the screen position of a
    /// cursor is its location minus the scroll offset, and the scroll
    /// invariant keeps both components non-negative.
    pub fn subtract(&self, rhs: &Self) -> (r: Self)
        ensures
            r.x == self.x.saturating_sub(rhs.x),
            r.y == self.y.saturating_sub(rhs.y),
    {
        Self { x: self.x.saturating_sub(rhs.x), y: self.y.saturating_sub(rhs.y) }
    }
}

impl From<Location> for Position {
    fn from(location: Location) -> (r: Self)
        ensures
            r == (Position { col: location.x, row: location.y }),
    {
        Position { col: location.x, row: location.y }
    }
}

impl vstd::std_specs::convert::FromSpecImpl<Location> for Position {
    open spec fn obeys_from_spec() -> bool {
        true
    }

    open spec fn from_spec(location: Location) -> Self {
        Position { col: location.x, row: location.y }
    }
}

} // verus!
