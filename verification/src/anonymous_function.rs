//! A value that is computed when first asked for, and kept.

use vstd::prelude::*;

verus! {

/// Holds a calculation and, once it has run, its result.
pub struct Cacher<T> where T: Fn(u32) -> u32 {
    pub calculation: T,
    pub value: Option<u32>,
}

impl<T> Cacher<T> where T: Fn(u32) -> u32 {
    /// A cacher for `calculation`, with nothing computed yet.
    pub fn new(calculation: T) -> (r: Cacher<T>)
        ensures
            r.calculation == calculation,
            r.value == None::<u32>,
    {
        Cacher { calculation, value: None }
    }

    /// The cached result. The first call runs the calculation on `arg` and
    /// keeps what it returns; every later call gives that value back,
    /// whatever `arg` is.
    pub fn value(&mut self, arg: u32) -> (v: u32)
        requires
            old(self).value is None ==> call_requires(old(self).calculation, (arg,)),
        ensures
            final(self).calculation == old(self).calculation,
            final(self).value == Some(v),
            old(self).value is Some ==> old(self).value == Some(v),
            old(self).value is None ==> call_ensures(old(self).calculation, (arg,), v),
    {
        match self.value {
            Some(v) => v,
            None => {
                let v = (self.calculation)(arg);
                self.value = Some(v);
                v
            },
        }
    }
}

} // verus!
