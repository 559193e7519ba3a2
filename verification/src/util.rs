//! Small free-standing helpers.

use vstd::prelude::*;

verus! {

/// Returns the argument with the longer byte length, preferring `y` when
/// the lengths are equal.
pub fn longest<'a>(x: &'a str, y: &'a str) -> (r: &'a str)
    ensures
        r@ == (if x.len() > y.len() {
            x@
        } else {
            y@
        }),
        r.len() >= x.len(),
        r.len() >= y.len(),
{
    if x.len() > y.len() {
        x
    } else {
        y
    }
}

/// Adds the two arguments.
pub fn poorly_formatted(x: i32, y: i32) -> (r: i32)
    requires
        i32::MIN <= x + y <= i32::MAX,
    ensures
        r == x + y,
{
    x + y
}

} // verus!
