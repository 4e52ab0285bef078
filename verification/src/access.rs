//! Access tags: which of reading and writing a container admits.
//!
//! A tag is a type without data. A container carries one as its second type
//! parameter, and each accessing method asks for the capability it needs as a
//! bound on that parameter, so a call that the tag does not admit does not
//! compile. A tag of your own takes part by implementing [`Readable`],
//! [`Writable`] or both.

use vstd::prelude::*;

verus! {

/// The capability to load the target of a container.
pub trait Readable {

}

/// The capability to store to the target of a container.
pub trait Writable {

}

/// Tag of a container that may be read and written.
#[derive(Debug, Clone, Copy)]
pub struct ReadWrite;

impl Readable for ReadWrite {

}

impl Writable for ReadWrite {

}

/// Tag of a container that may only be read.
#[derive(Debug, Clone, Copy)]
pub struct ReadOnly;

impl Readable for ReadOnly {

}

/// Tag of a container that may only be written.
#[derive(Debug, Clone, Copy)]
pub struct WriteOnly;

impl Writable for WriteOnly {

}

} // verus!
