//! Plain geometric values
use vstd::prelude::*;

verus! {

/// A two dimensional vector
#[derive(Debug, Clone, Copy, PartialEq, Eq, Structural)]
pub struct Vec2<T> {
    pub x: T,
    pub y: T,
}

impl<T> Vec2<T> {
    /// Instantiate a new vector
    pub fn new(x: T, y: T) -> (v: Self)
        ensures
            v.x == x,
            v.y == y,
    {
        Vec2 { x, y }
    }
}

} // verus!
