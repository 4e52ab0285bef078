//! Handles: what a container wraps to reach its target.

use std::rc::Rc;
use std::sync::Arc;
use vstd::prelude::*;

verus! {

/// A value that designates one target and lends it out for reading.
///
/// Shared and exclusive references, `Box`, `Rc` and `Arc` are handles. The
/// storing methods of a container take those that give exclusive access: a
/// `&mut`, of which they also say that the store goes to the borrowed place,
/// and a `Box`, which owns its target.
pub trait Handle {
    /// The type of the target.
    type Target: ?Sized;

    /// The target this handle designates.
    spec fn pointee(&self) -> &Self::Target;

    /// Borrows the target.
    fn lend(&self) -> (target: &Self::Target)
        ensures
            target == self.pointee(),
    ;
}

impl<'a, T: ?Sized> Handle for &'a T {
    type Target = T;

    open spec fn pointee(&self) -> &T {
        *self
    }

    fn lend(&self) -> (target: &T) {
        *self
    }
}

impl<'a, T: ?Sized> Handle for &'a mut T {
    type Target = T;

    open spec fn pointee(&self) -> &T {
        &**self
    }

    fn lend(&self) -> (target: &T) {
        &**self
    }
}

impl<T: ?Sized> Handle for Box<T> {
    type Target = T;

    open spec fn pointee(&self) -> &T {
        &**self
    }

    fn lend(&self) -> (target: &T) {
        &**self
    }
}

impl<T: ?Sized> Handle for Rc<T> {
    type Target = T;

    open spec fn pointee(&self) -> &T {
        &**self
    }

    fn lend(&self) -> (target: &T) {
        &**self
    }
}

impl<T: ?Sized> Handle for Arc<T> {
    type Target = T;

    open spec fn pointee(&self) -> &T {
        &**self
    }

    fn lend(&self) -> (target: &T) {
        &**self
    }
}

} // verus!
