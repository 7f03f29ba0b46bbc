//! A screen whose components are all of one type.

use crate::oo::Draw;
use vstd::prelude::*;

verus! {

/// A screen whose components are all of the type `T`.
pub struct Screen<T: Draw> {
    pub components: Vec<T>,
}

impl<T> Screen<T> where T: Draw {
    /// Draws every component once, from the first to the last.
    pub fn run(&self) {
        let mut i: usize = 0;
        while i < self.components.len()
            invariant
                i <= self.components.len(),
            decreases self.components.len() - i,
        {
            self.components[i].draw();
            i += 1;
        }
    }
}

} // verus!
