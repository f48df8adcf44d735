//! Small helpers shared by the registry's callers.

use vstd::prelude::*;

verus! {

/// Appends `e` to `v` when it is present; hands `v` back unchanged
/// otherwise.
pub fn init<T>(e: Option<T>, v: Vec<T>) -> (r: Vec<T>)
    ensures
        match e {
            None => r == v,
            Some(x) => r@ == v@.push(x),
        },
{
    match e {
        None => v,
        Some(e) => {
            let mut v = v;
            v.push(e);
            v
        },
    }
}

} // verus!
