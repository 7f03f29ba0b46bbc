//! Control flow.

use vstd::prelude::*;

verus! {

/// One of three numbers by the size of `num`: 5 below 10, 12 from 10 to 19,
/// 6 from 20 on.
pub fn ifing(num: u8) -> (number: u8)
    ensures
        number == (if num < 10 {
            5int
        } else if num < 20 {
            12int
        } else {
            6int
        }),
{
    if num < 10 {
        5
    } else if num < 20 {
        12
    } else {
        6
    }
}

} // verus!
