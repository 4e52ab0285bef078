//! What the accesses of a container do, on values.

use vstd::prelude::*;

verus! {

/// Whether the range `start..end` and as many places from `dest` on lie in a
/// slice of `len` elements.
pub open spec fn fits_within(len: nat, start: int, end: int, dest: int) -> bool {
    &&& 0 <= start <= end <= len
    &&& 0 <= dest
    &&& dest + (end - start) <= len
}

/// The elements of `s` after those at `start..end` were moved to `dest` and
/// the following places: these places hold what `start..end` held in `s`, be
/// the two ranges apart or not, and every other place holds what it held.
pub open spec fn moved_within<T>(s: Seq<T>, start: int, end: int, dest: int) -> Seq<T> {
    Seq::new(
        s.len(),
        |i: int|
            if dest <= i < dest + (end - start) {
                s[start + (i - dest)]
            } else {
                s[i]
            },
    )
}

/// The places that the `k`-th single move of such a move loads from and
/// stores to. Where the destination lies before the source the moves go up
/// from the first element, else down from the last, so that no element is
/// stored over before it was loaded.
pub open spec fn nth_move_places(start: int, end: int, dest: int, k: int) -> (int, int) {
    if dest <= start {
        (start + k, dest + k)
    } else {
        (end - 1 - k, dest + (end - start) - 1 - k)
    }
}

/// `len` elements, each of them `value`.
pub open spec fn filled<T>(len: nat, value: T) -> Seq<T> {
    Seq::new(len, |i: int| value)
}

} // verus!
