//! What holds of the accesses of a container, taken together.
//!
//! Each law speaks of calls: `call_ensures` of a method, its arguments and
//! its result says that the call, made with these arguments, can have
//! returned this result. A container behind `&mut` is given as it is before
//! the call; `final` of it is the container after the call.
//!
//! A law on a storing access is stated twice, for the two kinds of handle that
//! these accesses take: an exclusive reference, and a `Box`, whose law ends in
//! `_in_box`.

#![allow(unused_imports)]

use crate::access::{ReadOnly, Readable, Writable, WriteOnly};
use crate::handle::Handle;
use crate::model::{fits_within, moved_within, nth_move_places};
use crate::text::{is_debug_of, tuple_text};
use crate::Volmem;
use core::fmt::Debug;
use core::ops::Range;
use vstd::prelude::*;

verus! {

/// A new container holds what the wrapped storage holds: the first read
/// returns the value that the storage was set up with.
pub proof fn law_read_after_new<R, T>(refer: R, vol: Volmem<R>, value: T) where
    R: Handle<Target = T>,
    T: Copy,

    requires
        call_ensures(Volmem::<R>::new, (refer,), vol),
        call_ensures(Volmem::<R>::read, (&vol,), value),
    ensures
        value == *refer.pointee(),
{
}

/// The last write wins: after `write(v1)` and then `write(v2)`, a read
/// returns `v2`, whatever `v1` was.
pub proof fn law_last_write_wins<'b, T, A>(
    first: &mut Volmem<&'b mut T, A>,
    second: &mut Volmem<&'b mut T, A>,
    v1: T,
    v2: T,
    value: T,
) where T: Copy, A: Readable + Writable
    requires
        call_ensures(Volmem::<&'b mut T, A>::write, (old(first), v1), ()),
        *old(second) == *final(first),
        call_ensures(Volmem::<&'b mut T, A>::write, (old(second), v2), ()),
        call_ensures(Volmem::<&'b mut T, A>::read, (&*final(second),), value),
    ensures
        value == v2,
{
}

/// A store reaches the storage: when the container is gone, the place that
/// its handle borrowed holds the value last written.
pub proof fn law_write_reaches_storage<'b, T, A>(vol: &mut Volmem<&'b mut T, A>, value: T) where
    T: Copy,
    A: Writable,

    requires
        call_ensures(Volmem::<&'b mut T, A>::write, (old(vol), value), ()),
        has_resolved(final(vol).handle()),
    ensures
        *final(old(vol).handle()) == value,
{
}

/// `update(f)` does what `read`, then `f` on the value read, then `write` of
/// what `f` left do: for an `f` whose result depends on its argument alone,
/// the two leave the same value in the same place.
pub proof fn law_update_is_read_apply_write<'b, T, A, F>(
    updated: &mut Volmem<&'b mut T, A>,
    stepped: &mut Volmem<&'b mut T, A>,
    f: F,
    slot: &mut T,
) where T: Copy, A: Readable + Writable, F: FnOnce(&mut T)
    requires
        forall|a: &mut T, b: &mut T|
            *a == *b && f.ensures((a,), ()) && f.ensures((b,), ()) ==> *final(a) == *final(b),
        *old(updated) == *old(stepped),
        call_ensures(Volmem::<&'b mut T, A>::update::<F>, (old(updated), f), ()),
        call_ensures(Volmem::<&'b mut T, A>::read, (&*old(stepped),), *old(slot)),
        f.ensures((old(slot),), ()),
        call_ensures(Volmem::<&'b mut T, A>::write, (old(stepped), *final(slot)), ()),
    ensures
        *final(updated).target() == *final(stepped).target(),
        *final(final(updated).handle()) == *final(final(stepped).handle()),
{
}

/// Giving up the capability to write keeps the target: the read-only
/// container reads what the container it was made from held.
pub proof fn law_readonly_keeps_target<R, T>(vol: Volmem<R>, narrowed: Volmem<R, ReadOnly>, value: T) where
    R: Handle<Target = T>,
    T: Copy,

    requires
        call_ensures(Volmem::<R>::readonly, (vol,), narrowed),
        call_ensures(Volmem::<R, ReadOnly>::read, (&narrowed,), value),
    ensures
        value == *vol.target(),
{
}

/// Giving up the capability to read keeps the target: a write to the
/// write-only container stores to the place that the container it was made
/// from designated.
pub proof fn law_writeonly_keeps_target<'b, T>(
    vol: Volmem<&'b mut T>,
    narrowed: &mut Volmem<&'b mut T, WriteOnly>,
    value: T,
) where T: Copy
    requires
        call_ensures(Volmem::<&'b mut T>::writeonly, (vol,), *old(narrowed)),
        call_ensures(Volmem::<&'b mut T, WriteOnly>::write, (old(narrowed), value), ()),
    ensures
        *final(narrowed).target() == value,
        *final(final(narrowed).handle()) == *final(vol.handle()),
{
}

/// Mapping keeps values: where `f` picks the part that `pick` names, a read
/// of the mapped container returns `pick` of what a read of the whole returns.
pub proof fn law_map_keeps_values<'a, R, T, A, F, U>(
    vol: &'a Volmem<R, A>,
    f: F,
    pick: spec_fn(T) -> U,
    part: Volmem<&'a U, A>,
    whole: T,
    value: U,
) where R: Handle<Target = T>, T: Copy + 'a, A: Readable, F: FnOnce(&'a T) -> &'a U, U: Copy
    requires
        forall|t: &'a T, u: &'a U| f.ensures((t,), u) ==> *u == pick(*t),
        call_ensures(Volmem::<R, A>::map::<F, U>, (vol, f), part),
        call_ensures(Volmem::<R, A>::read, (vol,), whole),
        call_ensures(Volmem::<&'a U, A>::read, (&part,), value),
    ensures
        value == pick(whole),
{
}

/// Indexing by a range keeps the slice's elements: the elements read through
/// `idx(i..j)` are those at `i..j` among the elements read through the whole.
pub proof fn law_idx_is_subrange<'a, R, T, A>(
    vol: &'a Volmem<R, A>,
    range: Range<usize>,
    part: Volmem<&'a [T], A>,
    all: &mut [T],
    some: &mut [T],
) where R: Handle<Target = [T]>, T: Copy + 'a, A: Readable
    requires
        range.start <= range.end <= vol.target()@.len(),
        call_ensures(Volmem::<R, A>::idx::<Range<usize>>, (vol, range), part),
        call_ensures(Volmem::<R, A>::copy_into_slice, (vol, old(all)), ()),
        call_ensures(Volmem::<&'a [T], A>::copy_into_slice, (&part, old(some)), ()),
    ensures
        final(some)@ == final(all)@.subrange(range.start as int, range.end as int),
{
}

/// `copy_within` moves as through a buffer: afterwards the destination holds
/// what the source range held before the call, whether or not the two
/// overlap, and every place outside the destination holds what it held.
pub proof fn law_copy_within_moves<'b, T, A>(
    vol: &mut Volmem<&'b mut [T], A>,
    src: Range<usize>,
    dest: usize,
) where T: Copy, A: Readable + Writable
    requires
        fits_within(old(vol).target()@.len(), src.start as int, src.end as int, dest as int),
        call_ensures(Volmem::<&'b mut [T], A>::copy_within, (old(vol), src, dest), ()),
    ensures
        final(vol).target()@.len() == old(vol).target()@.len(),
        final(vol).target()@.subrange(dest as int, dest + (src.end - src.start))
            == old(vol).target()@.subrange(src.start as int, src.end as int),
        forall|i: int|
            0 <= i < old(vol).target()@.len() && !(dest <= i < dest + (src.end - src.start))
                ==> final(vol).target()@[i] == old(vol).target()@[i],
{
    assert(final(vol).target()@.subrange(dest as int, dest + (src.end - src.start))
        =~= old(vol).target()@.subrange(src.start as int, src.end as int));
}

/// After `fill(b)`, reading the whole slice back gives `b` at every place.
pub proof fn law_fill_reads_back<'b, A>(vol: &mut Volmem<&'b mut [u8], A>, b: u8, back: &mut [u8]) where
    A: Readable + Writable,

    requires
        call_ensures(Volmem::<&'b mut [u8], A>::fill, (old(vol), b), ()),
        call_ensures(Volmem::<&'b mut [u8], A>::copy_into_slice, (&*final(vol), old(back)), ()),
    ensures
        final(back)@.len() == old(vol).target()@.len(),
        forall|i: int| 0 <= i < final(back)@.len() ==> final(back)@[i] == b,
{
}

/// The last write wins, also in a `Box`: after `write(v1)` and then
/// `write(v2)`, a read returns `v2`, whatever `v1` was.
pub proof fn law_last_write_wins_in_box<T, A>(
    first: &mut Volmem<Box<T>, A>,
    second: &mut Volmem<Box<T>, A>,
    v1: T,
    v2: T,
    value: T,
) where T: Copy, A: Readable + Writable
    requires
        call_ensures(Volmem::<Box<T>, A>::write, (old(first), v1), ()),
        *old(second) == *final(first),
        call_ensures(Volmem::<Box<T>, A>::write, (old(second), v2), ()),
        call_ensures(Volmem::<Box<T>, A>::read, (&*final(second),), value),
    ensures
        value == v2,
{
}

/// A store stays in the `Box`: the handle that `extractinner` gives back
/// after a write holds the value written.
pub proof fn law_write_stays_in_box<T, A>(vol: &mut Volmem<Box<T>, A>, value: T, refer: Box<T>) where
    T: Copy,
    A: Writable,

    requires
        call_ensures(Volmem::<Box<T>, A>::write, (old(vol), value), ()),
        call_ensures(Volmem::<Box<T>, A>::extractinner, (*final(vol),), refer),
    ensures
        *refer == value,
{
}

/// `update(f)` does what `read`, then `f`, then `write` do, also in a `Box`:
/// for an `f` whose result depends on its argument alone, the two leave the
/// same value.
pub proof fn law_update_is_read_apply_write_in_box<T, A, F>(
    updated: &mut Volmem<Box<T>, A>,
    stepped: &mut Volmem<Box<T>, A>,
    f: F,
    slot: &mut T,
) where T: Copy, A: Readable + Writable, F: FnOnce(&mut T)
    requires
        forall|a: &mut T, b: &mut T|
            *a == *b && f.ensures((a,), ()) && f.ensures((b,), ()) ==> *final(a) == *final(b),
        *old(updated) == *old(stepped),
        call_ensures(Volmem::<Box<T>, A>::update::<F>, (old(updated), f), ()),
        call_ensures(Volmem::<Box<T>, A>::read, (&*old(stepped),), *old(slot)),
        f.ensures((old(slot),), ()),
        call_ensures(Volmem::<Box<T>, A>::write, (old(stepped), *final(slot)), ()),
    ensures
        *final(updated).target() == *final(stepped).target(),
{
}

/// Giving up the capability to read keeps the target, also in a `Box`: a
/// write to the write-only container leaves the value in the target.
pub proof fn law_writeonly_keeps_target_in_box<T>(
    vol: Volmem<Box<T>>,
    narrowed: &mut Volmem<Box<T>, WriteOnly>,
    value: T,
    refer: Box<T>,
) where T: Copy
    requires
        call_ensures(Volmem::<Box<T>>::writeonly, (vol,), *old(narrowed)),
        call_ensures(Volmem::<Box<T>, WriteOnly>::write, (old(narrowed), value), ()),
        call_ensures(Volmem::<Box<T>, WriteOnly>::extractinner, (*final(narrowed),), refer),
    ensures
        *old(narrowed).target() == *vol.target(),
        *refer == value,
{
}

/// A store through a part reaches the whole. Where `f` picks the part that
/// `pick` names, and the whole with another part is what `put` names, the
/// mapped container reads `pick` of the whole, and after a write of `x` to it
/// the whole holds `put` of what it held and `x`: the part is `x`, the rest is
/// as it was.
pub proof fn law_map_mut_stores_the_part<'a, 'b, T, A, F, U>(
    vol: &'a mut Volmem<&'b mut T, A>,
    f: F,
    pick: spec_fn(T) -> U,
    put: spec_fn(T, U) -> T,
    part: &mut Volmem<&'a mut U, A>,
    before: U,
    x: U,
) where T: Copy + 'a, A: Readable + Writable, F: FnOnce(&mut T) -> &mut U, U: Copy
    requires
        forall|whole: &mut T, inner: &mut U| #[trigger]
            f.ensures((whole,), inner) ==> *inner == pick(*whole) && *final(whole) == put(
                *whole,
                *final(inner),
            ),
        call_ensures(Volmem::<&'b mut T, A>::map_mut::<F, U>, (old(vol), f), *old(part)),
        call_ensures(Volmem::<&'a mut U, A>::read, (&*old(part),), before),
        call_ensures(Volmem::<&'a mut U, A>::write, (old(part), x), ()),
        has_resolved(final(part).handle()),
    ensures
        before == pick(*old(vol).target()),
        *final(vol).target() == put(*old(vol).target(), x),
        *final(final(vol).handle()) == *final(old(vol).handle()),
{
}

/// A store through a part reaches the whole, also in a `Box`.
pub proof fn law_map_mut_stores_the_part_in_box<'a, T, A, F, U>(
    vol: &'a mut Volmem<Box<T>, A>,
    f: F,
    pick: spec_fn(T) -> U,
    put: spec_fn(T, U) -> T,
    part: &mut Volmem<&'a mut U, A>,
    before: U,
    x: U,
) where T: Copy + 'a, A: Readable + Writable, F: FnOnce(&mut T) -> &mut U, U: Copy
    requires
        forall|whole: &mut T, inner: &mut U| #[trigger]
            f.ensures((whole,), inner) ==> *inner == pick(*whole) && *final(whole) == put(
                *whole,
                *final(inner),
            ),
        call_ensures(Volmem::<Box<T>, A>::map_mut::<F, U>, (old(vol), f), *old(part)),
        call_ensures(Volmem::<&'a mut U, A>::read, (&*old(part),), before),
        call_ensures(Volmem::<&'a mut U, A>::write, (old(part), x), ()),
        has_resolved(final(part).handle()),
    ensures
        before == pick(*old(vol).target()),
        *final(vol).target() == put(*old(vol).target(), x),
{
}

/// A store to one element through `idxmut_at` changes that element alone.
pub proof fn law_idxmut_at_stores_one_element<'a, 'b, T, A>(
    vol: &'a mut Volmem<&'b mut [T], A>,
    at: usize,
    part: &mut Volmem<&'a mut T, A>,
    x: T,
) where T: Copy + 'a, A: Writable
    requires
        at < old(vol).target()@.len(),
        call_ensures(Volmem::<&'b mut [T], A>::idxmut_at, (old(vol), at), *old(part)),
        call_ensures(Volmem::<&'a mut T, A>::write, (old(part), x), ()),
        has_resolved(final(part).handle()),
    ensures
        final(vol).target()@ == old(vol).target()@.update(at as int, x),
        final(final(vol).handle())@ == final(old(vol).handle())@,
{
}

/// `copy_within` moves as through a buffer, also in a `Box`.
pub proof fn law_copy_within_moves_in_box<T, A>(
    vol: &mut Volmem<Box<[T]>, A>,
    src: Range<usize>,
    dest: usize,
) where T: Copy, A: Readable + Writable
    requires
        fits_within(old(vol).target()@.len(), src.start as int, src.end as int, dest as int),
        call_ensures(Volmem::<Box<[T]>, A>::copy_within, (old(vol), src, dest), ()),
    ensures
        final(vol).target()@.len() == old(vol).target()@.len(),
        final(vol).target()@.subrange(dest as int, dest + (src.end - src.start))
            == old(vol).target()@.subrange(src.start as int, src.end as int),
        forall|i: int|
            0 <= i < old(vol).target()@.len() && !(dest <= i < dest + (src.end - src.start))
                ==> final(vol).target()@[i] == old(vol).target()@[i],
{
    assert(final(vol).target()@.subrange(dest as int, dest + (src.end - src.start))
        =~= old(vol).target()@.subrange(src.start as int, src.end as int));
}

/// A move with an open end is the move of the range that ends where the
/// target ends, and one with an open start that of the range from 0.
pub proof fn law_open_moves_resolve<'b, T, A>(
    from: &mut Volmem<&'b mut [T], A>,
    to: &mut Volmem<&'b mut [T], A>,
    bound: usize,
    dest: usize,
) where T: Copy, A: Readable + Writable
    requires
        call_ensures(Volmem::<&'b mut [T], A>::copy_within_from, (old(from), bound, dest), ()),
        call_ensures(Volmem::<&'b mut [T], A>::copy_within_to, (old(to), bound, dest), ()),
    ensures
        final(from).target()@ == moved_within(
            old(from).target()@,
            bound as int,
            old(from).target()@.len() as int,
            dest as int,
        ),
        final(to).target()@ == moved_within(old(to).target()@, 0, bound as int, dest as int),
{
}

/// The single moves that `nth_move` names make up the whole move: none of
/// them loads from a place that an earlier one stored to, and each stores to
/// the place in the destination that answers to the one it loads from.
pub proof fn law_single_moves_keep_the_source(start: int, end: int, dest: int, j: int, k: int)
    requires
        0 <= start <= end,
        0 <= dest,
        0 <= j < k < end - start,
    ensures
        nth_move_places(start, end, dest, k).0 != nth_move_places(start, end, dest, j).1,
        nth_move_places(start, end, dest, k).1 - dest == nth_move_places(start, end, dest, k).0
            - start,
        dest <= nth_move_places(start, end, dest, k).1 < dest + (end - start),
{
}

/// After `fill(b)`, reading the whole slice back gives `b` at every place,
/// also in a `Box`.
pub proof fn law_fill_reads_back_in_box<A>(vol: &mut Volmem<Box<[u8]>, A>, b: u8, back: &mut [u8]) where
    A: Readable + Writable,

    requires
        call_ensures(Volmem::<Box<[u8]>, A>::fill, (old(vol), b), ()),
        call_ensures(Volmem::<Box<[u8]>, A>::copy_into_slice, (&*final(vol), old(back)), ()),
    ensures
        final(back)@.len() == old(vol).target()@.len(),
        forall|i: int| 0 <= i < final(back)@.len() ==> final(back)@[i] == b,
{
}

/// The text of a readable container shows the value that a read returns: what
/// stands in its brackets is what formatting that value with `{:?}` returned.
pub proof fn law_text_shows_what_read_returns<R, T, A>(vol: &Volmem<R, A>, value: T, text: String) where
    R: Handle<Target = T>,
    T: Copy + Debug,
    A: Readable,

    requires
        call_ensures(Volmem::<R, A>::read, (vol,), value),
        call_ensures(Volmem::<R, A>::debug_text, (vol,), text),
    ensures
        exists|field: Seq<char>| is_debug_of(&value, field) && text@ == tuple_text(field),
{
}

/// The text of a write-only container does not depend on what it wraps: two
/// such containers, over any handles and targets, read the same.
pub proof fn law_write_only_text_ignores_target<R1, R2>(
    one: Volmem<R1, WriteOnly>,
    other: Volmem<R2, WriteOnly>,
    text_of_one: String,
    text_of_other: String,
)
    requires
        call_ensures(Volmem::<R1, WriteOnly>::debug_text, (&one,), text_of_one),
        call_ensures(Volmem::<R2, WriteOnly>::debug_text, (&other,), text_of_other),
    ensures
        text_of_one@ == text_of_other@,
{
}

} // verus!
