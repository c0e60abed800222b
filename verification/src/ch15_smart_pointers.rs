//! A smart pointer of our own: a box that gives access to the value it holds.
use vstd::prelude::*;

verus! {

/// A box around one value.
#[derive(Debug)]
pub struct MiBox<T>(pub T);

impl<T> MiBox<T> {
    /// Boxes `x`.
    pub fn new(x: T) -> (r: MiBox<T>)
        ensures
            r.0 == x,
    {
        MiBox(x)
    }

    /// A reference to the boxed value (what dereferencing the box gives).
    pub fn valor(&self) -> (r: &T)
        ensures
            *r == self.0,
    {
        &self.0
    }
}

} // verus!
