//! The read-only capability: a value that is either an owned instance or a
//! shared reference to an instance owned elsewhere.

use crate::sealed::Sealed;
use vstd::prelude::*;

verus! {

/// A representation of an instance of a type that is either the instance
/// itself, or a shared reference to the instance.
///
/// Either form can produce a shared reference to the underlying value
/// through the `get_ref` method; neither can produce a mutable reference.
///
/// The trait is sealed: only the two forms implemented here can satisfy it.
pub trait SoR<T>: Sealed {
    /// The underlying value this wrapper gives access to.
    spec fn sor_value(&self) -> T;

    /// Returns a shared reference to the underlying value.
    ///
    /// The reference observes exactly `sor_value()`; the call never mutates
    /// anything, so repeated calls observe the same value.
    fn get_ref(&self) -> (r: &T)
        ensures
            *r == self.sor_value(),
    ;
}

impl<T> SoR<T> for T {
    open spec fn sor_value(&self) -> T {
        *self
    }

    fn get_ref(&self) -> (r: &T) {
        self
    }
}

impl<T> SoR<T> for &T {
    open spec fn sor_value(&self) -> T {
        **self
    }

    fn get_ref(&self) -> (r: &T) {
        *self
    }
}

/// Law: for every owned instantiation, the shared view observes exactly the
/// value the wrapper was constructed from.
pub fn owned_view_observes_value<T>(value: &T) -> (r: &T)
    ensures
        *r == *value,
{
    SoR::get_ref(value)
}

/// Law: the shared-reference form built from an existing reference observes
/// exactly what the original storage holds; no hidden copy is read.
pub fn shared_ref_view_is_original<'a, T>(wrapper: &'a &'a T) -> (r: &'a T)
    ensures
        *r == **wrapper,
{
    SoR::get_ref(wrapper)
}

/// Law: two consecutive shared views of one wrapper, with no intervening
/// mutation, observe identical state.
pub fn shared_views_agree<T, M: SoR<T>>(wrapper: &M) -> (views: (&T, &T))
    ensures
        *views.0 == *views.1,
        *views.0 == wrapper.sor_value(),
{
    (wrapper.get_ref(), wrapper.get_ref())
}

/// Returns 13 on every input.
pub fn sth(a: usize) -> (r: usize)
    ensures
        r == 13,
{
    13
}

} // verus!
