//! A container that gates the accesses to one place in memory by a tag.
//!
//! A [`Volmem`] wraps a handle to a value or a slice, its target, and carries
//! an access tag from [`access`]. Loads need a tag that is
//! [`Readable`](access::Readable), stores one that is
//! [`Writable`](access::Writable). Which of the two a container admits is part
//! of its type: a misuse does not compile, and nothing is checked at run time.
//! A container made for both can give one of them up, and never gets it back.
//!
//! The modules, by what the target is accessed as:
//! - [`cell`]: one value, by `read`, `write` and `update`;
//! - [`bulk`]: a slice as a whole, by `copy_into_slice`, `copy_from_slice`,
//!   `copy_within`, its forms for a range with an open end, and `fill`;
//! - [`view`]: a part of the target, a field, an element or a range, as a
//!   container of its own, by `map`, `map_mut`, `idx`, `idxmut`, `idxmut_at`,
//!   `as_slice` and `as_mut_slice`;
//! - [`text`]: the container as text, for diagnostics.
//!
//! [`handle`] says what can be wrapped. The accesses that load take every
//! handle; those that store take an exclusive reference, in the modules above,
//! or a `Box`, in [`owned`]. [`model`] holds the functions on sequences that
//! the contracts of [`bulk`] are stated in, and [`laws`] proves what holds of
//! several accesses in a row.
//!
//! # What the contracts cover
//!
//! Each access states what it returns and what the target holds afterwards,
//! and a storing access through an exclusive reference also that it stores to
//! the very place that was borrowed, so that the value is found there once
//! the container is gone.
//! This is the reading Rust gives to references: between two accesses of the
//! container nothing else changes the target.
//!
//! Every access is made of loads and stores of single values, one for each
//! value it touches. They are ordinary loads and stores: a volatile access is
//! an unsafe call in Rust, and this crate holds no unsafe code. A caller whose
//! target is a device register, where no access may be dropped or merged,
//! takes the reference from `map`, `map_mut` or `extractinner` and issues the
//! volatile access itself, under the same bounds on the tag.

use crate::access::{ReadOnly, ReadWrite, WriteOnly};
use crate::handle::Handle;
use core::marker::PhantomData;
use vstd::prelude::*;

pub mod access;
pub mod bulk;
pub mod cell;
pub mod handle;
pub mod laws;
mod mem;
pub mod model;
pub mod owned;
pub mod text;
pub mod view;

verus! {

/// A handle `R` to a target, with the access tag `A`.
pub struct Volmem<R, A = ReadWrite> {
    refer: R,
    acc: PhantomData<A>,
}

impl<R, A> Volmem<R, A> {
    /// The wrapped handle.
    pub closed spec fn handle(self) -> R {
        self.refer
    }

    /// Gives the handle back; the target is not touched.
    pub fn extractinner(self) -> (refer: R)
        ensures
            refer == self.handle(),
    {
        self.refer
    }
}

impl<R: Handle, A> Volmem<R, A> {
    /// The target: what the handle designates.
    pub open spec fn target(&self) -> &R::Target {
        R::pointee(&self.handle())
    }
}

impl<R> Volmem<R> {
    /// Wraps `refer` for reading and writing.
    pub fn new(refer: R) -> (vol: Volmem<R>)
        ensures
            vol.handle() == refer,
    {
        Volmem { refer, acc: PhantomData }
    }

    /// Wraps `refer` for reading only.
    pub fn new_rdonly(refer: R) -> (vol: Volmem<R, ReadOnly>)
        ensures
            vol.handle() == refer,
    {
        Volmem { refer, acc: PhantomData }
    }

    /// Wraps `refer` for writing only.
    pub fn new_wronly(refer: R) -> (vol: Volmem<R, WriteOnly>)
        ensures
            vol.handle() == refer,
    {
        Volmem { refer, acc: PhantomData }
    }

    /// Gives up the capability to write. No method gives it back.
    pub fn readonly(self) -> (vol: Volmem<R, ReadOnly>)
        ensures
            vol.handle() == self.handle(),
    {
        Volmem { refer: self.refer, acc: PhantomData }
    }

    /// Gives up the capability to read. No method gives it back.
    pub fn writeonly(self) -> (vol: Volmem<R, WriteOnly>)
        ensures
            vol.handle() == self.handle(),
    {
        Volmem { refer: self.refer, acc: PhantomData }
    }
}

impl<R: Clone, A> Clone for Volmem<R, A> {
    /// A container with a clone of the handle and the same tag.
    fn clone(&self) -> (vol: Self)
        ensures
            call_ensures(R::clone, (&self.handle(),), vol.handle()),
    {
        Volmem { refer: self.refer.clone(), acc: PhantomData }
    }
}

} // verus!
