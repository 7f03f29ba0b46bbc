//! Values that own what they point to.

use vstd::prelude::*;

verus! {

/// A box of one value.
pub struct MyBox<T>(pub T);

impl<T> MyBox<T> {
    /// A box that holds `x`.
    pub fn new(x: T) -> (r: MyBox<T>)
        ensures
            r.0 == x,
    {
        MyBox(x)
    }

}

impl<T> core::ops::Deref for MyBox<T> {
    type Target = T;

    /// The value in the box.
    fn deref(&self) -> (r: &T)
        ensures
            *r == self.0,
    {
        &self.0
    }
}

/// A list of numbers, each link owning the rest.
pub enum List {
    Cons(i32, Box<List>),
    Nil,
}

impl List {
    /// The rest of the list after its first number; `None` for the empty
    /// list.
    pub fn tail(&self) -> (r: Option<&Box<List>>)
        ensures
            r == (match *self {
                List::Cons(_, item) => Some(&item),
                List::Nil => None,
            }),
    {
        match self {
            List::Cons(_, item) => Some(item),
            List::Nil => None,
        }
    }
}

} // verus!
