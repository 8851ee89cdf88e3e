//! Position cells padded to a cache line.
//!
//! The ring keeps its producer and consumer positions in cells of
//! `cache_padded::CachePadded`, so the two counters never share a cache line.
//! The padding changes layout only; `padded_value` names the value a cell
//! holds, and the three wrappers below are the only operations on it.

use cache_padded::CachePadded;
use vstd::prelude::*;

verus! {

#[verifier::external_type_specification]
#[verifier::external_body]
#[verifier::reject_recursive_types(T)]
pub struct ExCachePadded<T>(CachePadded<T>);

/// The position a padded cell holds.
pub uninterp spec fn padded_value(c: CachePadded<usize>) -> usize;

/// Relies on `cache_padded::CachePadded::new`: wraps the given value, padding
/// it to the length of a cache line.
#[verifier::external_body]
pub(crate) fn padded_new(v: usize) -> (c: CachePadded<usize>)
    ensures
        padded_value(c) == v,
{
    CachePadded::new(v)
}

/// Relies on `cache_padded`'s `Deref`: yields the wrapped value.
#[verifier::external_body]
pub(crate) fn padded_read(c: &CachePadded<usize>) -> (v: usize)
    ensures
        v == padded_value(*c),
{
    **c
}

/// Relies on `cache_padded`'s `DerefMut`: overwrites the wrapped value.
#[verifier::external_body]
pub(crate) fn padded_write(c: &mut CachePadded<usize>, v: usize)
    ensures
        padded_value(*final(c)) == v,
{
    **c = v;
}

} // verus!
