//! The storing accesses through a handle that owns its target, a `Box`.
//!
//! They are those of [`cell`](crate::cell), [`view`](crate::view) and
//! [`bulk`](crate::bulk) under the same names, and do the same to the target.
//! What they need not say is where the store goes: the target has no owner
//! but the handle, and is found in it afterwards.

use crate::access::{Readable, Writable};
use crate::model::{filled, fits_within, moved_within};
use crate::Volmem;
use core::marker::PhantomData;
use core::ops::Range;
use vstd::pervasive::runtime_assert;
use vstd::prelude::*;

verus! {

impl<T: Copy, A> Volmem<Box<T>, A> {
    /// Stores `value` to the target, once. What the target held before is
    /// gone, whatever it was.
    pub fn write(&mut self, value: T) where A: Writable
        ensures
            *final(self).target() == value,
    {
        let mut inner: Volmem<&mut T, A> = Volmem { refer: &mut *self.refer, acc: PhantomData };
        inner.write(value);
    }

    /// Loads the target, lets `f` change the loaded value, and stores what
    /// `f` left: one load, then one store, and not one step.
    pub fn update<F>(&mut self, f: F) where A: Readable + Writable, F: FnOnce(&mut T)
        requires
            forall|slot: &mut T| *slot == *old(self).target() ==> f.requires((slot,)),
        ensures
            exists|slot: &mut T|
                {
                    &&& *slot == *old(self).target()
                    &&& f.ensures((slot,), ())
                    &&& *final(self).target() == *final(slot)
                },
    {
        let mut inner: Volmem<&mut T, A> = Volmem { refer: &mut *self.refer, acc: PhantomData };
        inner.update(f);
    }
}

impl<T: ?Sized, A> Volmem<Box<T>, A> {
    /// A container over the part of the target that `f` picks, for accesses
    /// that store. What the part holds when its container is gone, the target
    /// holds as `f` says of its argument.
    pub fn map_mut<'a, F, U: ?Sized>(&'a mut self, f: F) -> (part: Volmem<&'a mut U, A>) where
        F: FnOnce(&mut T) -> &mut U,
        T: 'a,

        requires
            forall|whole: &mut T| &*whole == old(self).target() ==> f.requires((whole,)),
        ensures
            exists|whole: &mut T|
                {
                    &&& &*whole == old(self).target()
                    &&& f.ensures((whole,), part.handle())
                    &&& final(self).target() == &*final(whole)
                },
    {
        let whole: &mut T = &mut *self.refer;
        Volmem { refer: f(whole), acc: PhantomData }
    }
}

impl<T, A> Volmem<Box<[T]>, A> {
    /// A container over the elements at `idx`, for accesses that store. What
    /// it holds when it is gone stands at `idx` in the slice, between the
    /// elements before and after, which stay. A caller that Verus has not held
    /// to a range inside the slice is stopped by a panic.
    pub fn idxmut<'a>(&'a mut self, idx: Range<usize>) -> (part: Volmem<&'a mut [T], A>) where
        T: 'a,

        requires
            idx.start <= idx.end <= old(self).target()@.len(),
        ensures
            part.target()@ == old(self).target()@.subrange(idx.start as int, idx.end as int),
            final(self).target()@ == old(self).target()@.subrange(0, idx.start as int)
                + final(part.handle())@
                + old(self).target()@.skip(idx.end as int),
    {
        let whole: &mut [T] = &mut *self.refer;
        runtime_assert(idx.start <= idx.end && idx.end <= whole.len());
        let (_, rest) = whole.split_at_mut(idx.start);
        let (part, _) = rest.split_at_mut(idx.end - idx.start);
        Volmem { refer: part, acc: PhantomData }
    }

    /// A container over the element at `at`, for accesses that store. What it
    /// holds when it is gone stands at `at` in the slice; the other elements
    /// stay.
    pub fn idxmut_at<'a>(&'a mut self, at: usize) -> (part: Volmem<&'a mut T, A>) where T: 'a
        requires
            at < old(self).target()@.len(),
        ensures
            *part.target() == old(self).target()@[at as int],
            final(self).target()@ == old(self).target()@.update(at as int, *final(part.handle())),
    {
        let whole: &mut [T] = &mut *self.refer;
        Volmem { refer: &mut whole[at], acc: PhantomData }
    }

    /// Stores every element of `src`, each once, to the target, which has to
    /// be as long as `src`. A caller that Verus has not held to this is stopped
    /// by a panic before the first store.
    pub fn copy_from_slice(&mut self, src: &[T]) where T: Copy, A: Writable
        requires
            src@.len() == old(self).target()@.len(),
        ensures
            final(self).target()@ == src@,
    {
        let mut inner: Volmem<&mut [T], A> = Volmem { refer: &mut *self.refer, acc: PhantomData };
        inner.copy_from_slice(src);
    }

    /// Moves the elements at `src` to `dest` and the places that follow it, as
    /// if through a buffer: the two ranges may overlap. Both have to lie in the
    /// target. A caller that Verus has not held to this is stopped by a panic
    /// before the first access.
    pub fn copy_within(&mut self, src: Range<usize>, dest: usize) where
        T: Copy,
        A: Readable + Writable,

        requires
            fits_within(
                old(self).target()@.len(),
                src.start as int,
                src.end as int,
                dest as int,
            ),
        ensures
            final(self).target()@ == moved_within(
                old(self).target()@,
                src.start as int,
                src.end as int,
                dest as int,
            ),
    {
        let mut inner: Volmem<&mut [T], A> = Volmem { refer: &mut *self.refer, acc: PhantomData };
        inner.copy_within(src, dest);
    }

    /// `copy_within` for a source that runs from `start` to the end of the
    /// target, the range `start..`.
    pub fn copy_within_from(&mut self, start: usize, dest: usize) where
        T: Copy,
        A: Readable + Writable,

        requires
            fits_within(
                old(self).target()@.len(),
                start as int,
                old(self).target()@.len() as int,
                dest as int,
            ),
        ensures
            final(self).target()@ == moved_within(
                old(self).target()@,
                start as int,
                old(self).target()@.len() as int,
                dest as int,
            ),
    {
        let mut inner: Volmem<&mut [T], A> = Volmem { refer: &mut *self.refer, acc: PhantomData };
        inner.copy_within_from(start, dest);
    }

    /// `copy_within` for a source that runs from the start of the target to
    /// `end`, the range `..end`.
    pub fn copy_within_to(&mut self, end: usize, dest: usize) where
        T: Copy,
        A: Readable + Writable,

        requires
            fits_within(old(self).target()@.len(), 0, end as int, dest as int),
        ensures
            final(self).target()@ == moved_within(old(self).target()@, 0, end as int, dest as int),
    {
        let mut inner: Volmem<&mut [T], A> = Volmem { refer: &mut *self.refer, acc: PhantomData };
        inner.copy_within_to(end, dest);
    }
}

impl<A> Volmem<Box<[u8]>, A> {
    /// Stores `value` to every byte of the target, each once.
    pub fn fill(&mut self, value: u8) where A: Writable
        ensures
            final(self).target()@ == filled(old(self).target()@.len(), value),
    {
        let mut inner: Volmem<&mut [u8], A> = Volmem { refer: &mut *self.refer, acc: PhantomData };
        inner.fill(value);
    }
}

impl<T, A, const N: usize> Volmem<Box<[T; N]>, A> {
    /// A container over the array as a slice, for accesses that store. What it
    /// holds when it is gone, the array holds.
    pub fn as_mut_slice(&mut self) -> (part: Volmem<&mut [T], A>)
        ensures
            part.target()@ == old(self).target()@,
            final(self).target()@ == final(part.handle())@,
    {
        let array: &mut [T; N] = &mut *self.refer;
        let slice: &mut [T] = array;
        Volmem { refer: slice, acc: PhantomData }
    }
}

} // verus!
