//! The positional value that every notification of the handle carries.

use vstd::prelude::*;

verus! {

/// A pair of coordinates, passed by value.
///
/// The coordinate type is the toolkit's own and is never inspected here: a
/// position is only carried from the gesture that reported it to the
/// notification that delivers it.
#[derive(Debug)]
pub struct Position<T> {
    pub x: T,
    pub y: T,
}

impl<T> Position<T> {
    /// The position with the given coordinates.
    pub fn new(x: T, y: T) -> (pos: Self)
        ensures
            pos.x == x,
            pos.y == y,
    {
        Position { x, y }
    }
}

} // verus!
