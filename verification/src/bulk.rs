//! Accesses to a slice as a whole.

use crate::access::{Readable, Writable};
use crate::handle::Handle;
use crate::model::{filled, fits_within, moved_within, nth_move_places};
use crate::mem::{load, store};
use crate::Volmem;
use core::ops::Range;
use vstd::pervasive::runtime_assert;
use vstd::prelude::*;

verus! {

/// The places `(from, to)` of the `k`-th single move of a move of `src` to
/// `dest`: making these moves for `k` from 0 up to the length of `src` moves
/// `src` whole, also where it overlaps its destination.
pub fn nth_move(src: &Range<usize>, dest: usize, k: usize) -> (places: (usize, usize))
    requires
        src.start <= src.end,
        k < src.end - src.start,
        dest + (src.end - src.start) <= usize::MAX,
    ensures
        (places.0 as int, places.1 as int) == nth_move_places(
            src.start as int,
            src.end as int,
            dest as int,
            k as int,
        ),
{
    if dest <= src.start {
        (src.start + k, dest + k)
    } else {
        let back: usize = src.end - src.start - 1 - k;
        (src.start + back, dest + back)
    }
}

impl<R, T, A> Volmem<R, A> where R: Handle<Target = [T]> {
    /// Whether `other` is as long as the target, as a copy between the two
    /// asks. The target is not loaded.
    pub fn matches(&self, other: &[T]) -> (ok: bool)
        ensures
            ok == (other@.len() == self.target()@.len()),
    {
        self.refer.lend().len() == other.len()
    }

    /// Whether `src` and as many places from `dest` on lie in the target, as
    /// a move within it asks. The target is not loaded.
    pub fn holds_move(&self, src: &Range<usize>, dest: usize) -> (ok: bool)
        ensures
            ok == fits_within(
                self.target()@.len(),
                src.start as int,
                src.end as int,
                dest as int,
            ),
    {
        let len: usize = self.refer.lend().len();
        src.start <= src.end && src.end <= len && dest <= len - (src.end - src.start)
    }

    /// Loads every element of the target, each once, into `dst`, which has to
    /// be as long as the target. A caller that Verus has not held to this is
    /// stopped by a panic before the first load.
    pub fn copy_into_slice(&self, dst: &mut [T]) where T: Copy, A: Readable
        requires
            old(dst)@.len() == self.target()@.len(),
        ensures
            final(dst)@ == self.target()@,
    {
        runtime_assert(self.matches(dst));
        let src: &[T] = self.refer.lend();
        let mut k: usize = 0;
        while k < src.len()
            invariant
                k <= src.len() == dst.len(),
                forall|i: int| 0 <= i < k ==> dst@[i] == src@[i],
            decreases src.len() - k,
        {
            let value = load(&src[k]);
            store(&mut dst[k], value);
            k += 1;
        }
        assert(dst@ =~= src@);
    }
}

impl<'b, T, A> Volmem<&'b mut [T], A> {
    /// Stores every element of `src`, each once, to the target, which has to
    /// be as long as `src`. A caller that Verus has not held to this is stopped
    /// by a panic before the first store.
    pub fn copy_from_slice(&mut self, src: &[T]) where T: Copy, A: Writable
        requires
            src@.len() == old(self).target()@.len(),
        ensures
            final(self).target()@ == src@,
            final(final(self).handle())@ == final(old(self).handle())@,
    {
        runtime_assert(self.matches(src));
        let mut k: usize = 0;
        while k < src.len()
            invariant
                k <= src.len() == self.refer.len(),
                forall|i: int| 0 <= i < k ==> self.refer@[i] == src@[i],
                final(self.refer)@ == final(old(self).refer)@,
            decreases src.len() - k,
        {
            let value = load(&src[k]);
            store(&mut self.refer[k], value);
            k += 1;
        }
        assert(self.refer@ =~= src@);
    }

    /// Moves the elements at `src` to `dest` and the places that follow it, as
    /// if through a buffer: the two ranges may overlap. Both have to lie in the
    /// target. A caller that Verus has not held to this is stopped by a panic
    /// before the first access.
    pub fn copy_within(&mut self, src: Range<usize>, dest: usize) where
        T: Copy,
        A: Readable + Writable,

        requires
            fits_within(
                old(self).target()@.len(),
                src.start as int,
                src.end as int,
                dest as int,
            ),
        ensures
            final(self).target()@ == moved_within(
                old(self).target()@,
                src.start as int,
                src.end as int,
                dest as int,
            ),
            final(final(self).handle())@ == final(old(self).handle())@,
    {
        let ghost before = self.refer@;
        runtime_assert(self.holds_move(&src, dest));
        let count: usize = src.end - src.start;
        let mut k: usize = 0;
        while k < count
            invariant
                k <= count == src.end - src.start,
                fits_within(before.len(), src.start as int, src.end as int, dest as int),
                self.refer.len() == before.len(),
                forall|i: int|
                    0 <= i < before.len() ==> self.refer@[i] == if (if dest <= src.start {
                        dest <= i < dest + k
                    } else {
                        dest + count - k <= i < dest + count
                    }) {
                        before[src.start + (i - dest)]
                    } else {
                        before[i]
                    },
                final(self.refer)@ == final(old(self).refer)@,
            decreases count - k,
        {
            let (from, to) = nth_move(&src, dest, k);
            let value = load(&self.refer[from]);
            store(&mut self.refer[to], value);
            k += 1;
        }
        assert(self.refer@ =~= moved_within(before, src.start as int, src.end as int, dest as int));
    }

    /// `copy_within` for a source that runs from `start` to the end of the
    /// target, the range `start..`.
    pub fn copy_within_from(&mut self, start: usize, dest: usize) where
        T: Copy,
        A: Readable + Writable,

        requires
            fits_within(
                old(self).target()@.len(),
                start as int,
                old(self).target()@.len() as int,
                dest as int,
            ),
        ensures
            final(self).target()@ == moved_within(
                old(self).target()@,
                start as int,
                old(self).target()@.len() as int,
                dest as int,
            ),
            final(final(self).handle())@ == final(old(self).handle())@,
    {
        let end: usize = self.refer.len();
        self.copy_within(start..end, dest);
    }

    /// `copy_within` for a source that runs from the start of the target to
    /// `end`, the range `..end`.
    pub fn copy_within_to(&mut self, end: usize, dest: usize) where
        T: Copy,
        A: Readable + Writable,

        requires
            fits_within(old(self).target()@.len(), 0, end as int, dest as int),
        ensures
            final(self).target()@ == moved_within(old(self).target()@, 0, end as int, dest as int),
            final(final(self).handle())@ == final(old(self).handle())@,
    {
        self.copy_within(0..end, dest);
    }
}

impl<'b, A> Volmem<&'b mut [u8], A> {
    /// Stores `value` to every byte of the target, each once.
    pub fn fill(&mut self, value: u8) where A: Writable
        ensures
            final(self).target()@ == filled(old(self).target()@.len(), value),
            final(final(self).handle())@ == final(old(self).handle())@,
    {
        let ghost len = self.refer@.len();
        let mut k: usize = 0;
        while k < self.refer.len()
            invariant
                k <= self.refer.len() == len,
                forall|i: int| 0 <= i < k ==> self.refer@[i] == value,
                final(self.refer)@ == final(old(self).refer)@,
            decreases self.refer.len() - k,
        {
            store(&mut self.refer[k], value);
            k += 1;
        }
        assert(self.refer@ =~= filled(len, value));
    }
}

} // verus!
