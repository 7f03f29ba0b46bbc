//! Small generic items.

use vstd::prelude::*;

verus! {

/// A value or none, like `Option`.
pub enum Optionx<T> {
    SOME(T),
    NONE,
}

/// The first item of `list`, which must not be empty.
pub fn _generics<T>(list: &[T]) -> (r: &T)
    requires
        list@.len() > 0,
    ensures
        *r == list@[0],
{
    &list[0]
}

/// A pair of coordinates that may be of different types.
pub struct Point<T, U> {
    pub x: T,
    pub y: U,
}

impl<T, U> Point<T, U> {
    /// The first coordinate.
    pub fn _x(&self) -> (r: &T)
        ensures
            *r == self.x,
    {
        &self.x
    }

    /// The point with this point's first coordinate, and `other`'s first
    /// coordinate as its second.
    pub fn _mixup<V>(self, other: Point<V, U>) -> (r: Point<T, V>)
        ensures
            r.x == self.x,
            r.y == other.x,
    {
        Point { x: self.x, y: other.x }
    }
}

impl Point<i32, i32> {
    /// The first coordinate of a point of two `i32`.
    pub fn _dis(&self) -> (r: i32)
        ensures
            r == self.x,
    {
        (&self).x
    }
}

} // verus!
