//! Functions on borrowed strings.

use vstd::prelude::*;
use vstd::string::StringSliceAdditionalSpecFns;

verus! {

/// The longer of two strings by their length in bytes; `y` where they are
/// equally long.
pub fn _longest<'a>(x: &'a str, y: &'a str) -> (r: &'a str)
    ensures
        r == (if x.spec_bytes().len() > y.spec_bytes().len() {
            x
        } else {
            y
        }),
{
    if x.as_bytes().len() > y.as_bytes().len() {
        x
    } else {
        y
    }
}

/// A piece of text that borrows from a longer one.
pub struct ImportantExcerpt<'a> {
    pub part: &'a str,
}

impl<'a> ImportantExcerpt<'a> {
    /// The excerpt's text, whatever `another` is.
    pub fn _level(&self, another: &str) -> (r: &str)
        ensures
            r == self.part,
    {
        self.part
    }
}

/// The whole of `s`.
pub fn _elision(s: &str) -> (r: &str)
    ensures
        r == s,
{
    s
}

} // verus!
