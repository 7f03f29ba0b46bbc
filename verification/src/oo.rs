//! A screen of components that know how to draw themselves, twice: once with
//! components of any kinds side by side, once with components of one kind.

use vstd::prelude::*;

pub mod bounded;

verus! {

/// Something that can be drawn.
pub trait Draw {
    /// Draws this value. What drawing does is the implementor's business.
    fn draw(&self);
}

/// A screen whose components may each be of another type.
pub struct Screen {
    pub components: Vec<Box<dyn Draw>>,
}

impl Screen {
    /// Draws every component once, from the first to the last.
    pub fn run(&self) {
        let mut i: usize = 0;
        while i < self.components.len()
            invariant
                i <= self.components.len(),
            decreases self.components.len() - i,
        {
            self.components[i].draw();
            i += 1;
        }
    }
}

} // verus!
