//! Containers over a part of the target of another container.
//!
//! A part has the tag of the container it was taken from and borrows it: the
//! bounds on the tag that gate the accesses to the whole gate those to the
//! part. Taking a part loads and stores nothing.

use crate::handle::Handle;
use crate::Volmem;
use core::marker::PhantomData;
use core::ops::Range;
use core::slice::SliceIndex;
use vstd::pervasive::runtime_assert;
use vstd::prelude::*;

verus! {

impl<R, T: ?Sized, A> Volmem<R, A> where R: Handle<Target = T> {
    /// A container over the part of the target that `f` picks.
    pub fn map<'a, F, U: ?Sized>(&'a self, f: F) -> (part: Volmem<&'a U, A>) where
        F: FnOnce(&'a T) -> &'a U,
        T: 'a,

        requires
            f.requires((self.target(),)),
        ensures
            f.ensures((self.target(),), part.target()),
    {
        Volmem { refer: f(self.refer.lend()), acc: PhantomData }
    }
}

impl<'b, T: ?Sized, A> Volmem<&'b mut T, A> {
    /// A container over the part of the target that `f` picks, for accesses
    /// that store. `f` is given the target as it is and returns the part; what
    /// the part holds when its container is gone, the target holds as `f`
    /// says of its argument.
    pub fn map_mut<'a, F, U: ?Sized>(&'a mut self, f: F) -> (part: Volmem<&'a mut U, A>) where
        F: FnOnce(&mut T) -> &mut U,
        T: 'a,

        requires
            forall|whole: &mut T| &*whole == old(self).target() ==> f.requires((whole,)),
        ensures
            exists|whole: &mut T|
                {
                    &&& &*whole == old(self).target()
                    &&& f.ensures((whole,), part.handle())
                    &&& final(self).target() == &*final(whole)
                },
            &*final(final(self).handle()) == &*final(old(self).handle()),
    {
        Volmem { refer: f(&mut *self.refer), acc: PhantomData }
    }
}

impl<R, T, A> Volmem<R, A> where R: Handle<Target = [T]> {
    /// A container over what `idx` selects of the slice: an element for a
    /// `usize`, a sub-slice for a range.
    pub fn idx<'a, I>(&'a self, idx: I) -> (part: Volmem<&'a I::Output, A>) where
        I: SliceIndex<[T]>,
        T: 'a,

        requires
            vstd::slice::SliceIndexSpec::index_req(&idx, self.target()),
        ensures
            call_ensures(<I as SliceIndex<[T]>>::index, (idx, self.target()), part.target()),
    {
        let slice: &'a [T] = self.refer.lend();
        Volmem { refer: core::ops::Index::index(slice, idx), acc: PhantomData }
    }
}

impl<'b, T, A> Volmem<&'b mut [T], A> {
    /// A container over the elements at `idx`, for accesses that store. What
    /// it holds when it is gone stands at `idx` in the slice, between the
    /// elements before and after, which stay. A caller that Verus has not held
    /// to a range inside the slice is stopped by a panic.
    pub fn idxmut<'a>(&'a mut self, idx: Range<usize>) -> (part: Volmem<&'a mut [T], A>) where
        T: 'a,

        requires
            idx.start <= idx.end <= old(self).target()@.len(),
        ensures
            part.target()@ == old(self).target()@.subrange(idx.start as int, idx.end as int),
            final(self).target()@ == old(self).target()@.subrange(0, idx.start as int)
                + final(part.handle())@
                + old(self).target()@.skip(idx.end as int),
            final(final(self).handle())@ == final(old(self).handle())@,
    {
        runtime_assert(idx.start <= idx.end && idx.end <= self.refer.len());
        let (_, rest) = self.refer.split_at_mut(idx.start);
        let (part, _) = rest.split_at_mut(idx.end - idx.start);
        Volmem { refer: part, acc: PhantomData }
    }

    /// A container over the element at `at`, for accesses that store. What it
    /// holds when it is gone stands at `at` in the slice; the other elements
    /// stay.
    pub fn idxmut_at<'a>(&'a mut self, at: usize) -> (part: Volmem<&'a mut T, A>) where T: 'a
        requires
            at < old(self).target()@.len(),
        ensures
            *part.target() == old(self).target()@[at as int],
            final(self).target()@ == old(self).target()@.update(at as int, *final(part.handle())),
            final(final(self).handle())@ == final(old(self).handle())@,
    {
        Volmem { refer: &mut self.refer[at], acc: PhantomData }
    }
}

impl<R, T, A, const N: usize> Volmem<R, A> where R: Handle<Target = [T; N]> {
    /// A container over the array as a slice.
    pub fn as_slice(&self) -> (part: Volmem<&[T], A>)
        ensures
            part.target()@ == self.target()@,
    {
        let array: &[T; N] = self.refer.lend();
        Volmem { refer: array.as_slice(), acc: PhantomData }
    }
}

impl<'b, T, A, const N: usize> Volmem<&'b mut [T; N], A> {
    /// A container over the array as a slice, for accesses that store. What it
    /// holds when it is gone, the array holds.
    pub fn as_mut_slice(&mut self) -> (part: Volmem<&mut [T], A>)
        ensures
            part.target()@ == old(self).target()@,
            final(self).target()@ == final(part.handle())@,
            final(final(self).handle())@ == final(old(self).handle())@,
    {
        let slice: &mut [T] = &mut *self.refer;
        Volmem { refer: slice, acc: PhantomData }
    }
}

} // verus!
