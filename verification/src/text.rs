//! A container as text, for diagnostics.

use crate::access::{Readable, WriteOnly};
use crate::handle::Handle;
use crate::Volmem;
use core::fmt::Debug;
use vstd::prelude::*;
use vstd::string::StringExecFns;

verus! {

/// The text of a container whose one field reads `field`.
pub open spec fn tuple_text(field: Seq<char>) -> Seq<char> {
    "Volmem("@ + field + ")"@
}

/// What stands for the target in the text of a container that cannot be read.
pub open spec fn placeholder() -> Seq<char> {
    "\"[writeonly]\""@
}

/// `format!` with `{:?}`: the text that the `Debug` impl of `T` writes for
/// `value`. Nothing is claimed of it, since that impl is the caller's.
#[verifier::external_body]
fn debug_of<T: Debug>(value: &T) -> (field: String) {
    format!("{:?}", value)
}

/// Whether `field` is what formatting `value` with `{:?}` has returned: a
/// text that the `Debug` impl of `T` wrote for this value, and no other text.
pub closed spec fn is_debug_of<T: Debug>(value: &T, field: Seq<char>) -> bool {
    exists|written: String| call_ensures(debug_of::<T>, (value,), written) && written@ == field
}

/// Puts `field` in the brackets after the container's name.
pub fn wrap_field(field: &str) -> (text: String)
    ensures
        text@ == tuple_text(field@),
{
    let mut text = String::from_str("Volmem(");
    text.append(field);
    text.append(")");
    text
}

impl<R, T, A> Volmem<R, A> where R: Handle<Target = T>, T: Copy + Debug, A: Readable {
    /// The container's name with, in brackets, the target as its `Debug` impl
    /// writes it: the text comes from formatting the value that the target
    /// holds, which is loaded once.
    pub fn debug_text(&self) -> (text: String)
        ensures
            exists|field: Seq<char>|
                is_debug_of(self.target(), field) && text@ == tuple_text(field),
    {
        let value = self.read();
        let field = debug_of(&value);
        wrap_field(field.as_str())
    }
}

impl<R> Volmem<R, WriteOnly> {
    /// The container's name with a fixed text in brackets. The target is not
    /// loaded: this takes any `R`, and has no way to reach what it designates.
    pub fn debug_text(&self) -> (text: String)
        ensures
            text@ == tuple_text(placeholder()),
    {
        wrap_field("\"[writeonly]\"")
    }
}

} // verus!
