//! Accesses to a target that is one value.

use crate::access::{Readable, Writable};
use crate::handle::Handle;
use crate::mem::{load, store};
use crate::Volmem;
use vstd::prelude::*;

verus! {

impl<R, T, A> Volmem<R, A> where R: Handle<Target = T>, T: Copy {
    /// Loads the target, once, and returns what it holds.
    pub fn read(&self) -> (value: T) where A: Readable
        ensures
            value == *self.target(),
    {
        load(self.refer.lend())
    }
}

impl<'b, T: Copy, A> Volmem<&'b mut T, A> {
    /// Stores `value` to the target, once. What the target held before is
    /// gone, whatever it was.
    pub fn write(&mut self, value: T) where A: Writable
        ensures
            *final(self).target() == value,
            *final(final(self).handle()) == *final(old(self).handle()),
    {
        store(&mut *self.refer, value);
    }

    /// Loads the target, lets `f` change the loaded value, and stores what
    /// `f` left: one load, then one store. Nothing makes the two one step: a
    /// change of the target that comes in between is overwritten.
    pub fn update<F>(&mut self, f: F) where A: Readable + Writable, F: FnOnce(&mut T)
        requires
            forall|slot: &mut T| *slot == *old(self).target() ==> f.requires((slot,)),
        ensures
            exists|slot: &mut T|
                {
                    &&& *slot == *old(self).target()
                    &&& f.ensures((slot,), ())
                    &&& *final(self).target() == *final(slot)
                },
            *final(final(self).handle()) == *final(old(self).handle()),
    {
        let mut value = self.read();
        f(&mut value);
        self.write(value);
    }
}

} // verus!
