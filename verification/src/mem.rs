//! The two accesses that every method of a container is made of: nothing else
//! in this crate reads or writes a target.

use vstd::prelude::*;

verus! {

/// Loads the value at `src`, once.
pub(crate) fn load<T: Copy>(src: &T) -> (value: T)
    ensures
        value == *src,
{
    *src
}

/// Stores `value` at `dst`, once.
pub(crate) fn store<T: Copy>(dst: &mut T, value: T)
    ensures
        *final(dst) == value,
{
    *dst = value;
}

} // verus!
