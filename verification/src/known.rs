//! Values that may not be known yet.

use vstd::prelude::*;

verus! {

/// The first known of two values.
pub open spec fn first_known<T>(a: Option<T>, b: Option<T>) -> Option<T> {
    if a is Some {
        a
    } else {
        b
    }
}

/// The first known of two values.
pub fn or_else<T: Copy>(a: Option<T>, b: Option<T>) -> (out: Option<T>)
    ensures
        out == first_known(a, b),
{
    match a {
        Some(value) => Some(value),
        None => b,
    }
}

} // verus!
