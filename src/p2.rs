use vstd::prelude::*;

verus! {

/// A point in the plane, with both coordinates of the same type.
#[derive(Clone, Copy, Debug, PartialEq, Eq)]
pub struct P2<S> {
    pub x: S,
    pub y: S,
}

impl<S> P2<S> {
    pub fn new(x: S, y: S) -> (r: Self)
        ensures
            r.x == x,
            r.y == y,
    {
        P2 { x, y }
    }
}

} // verus!
