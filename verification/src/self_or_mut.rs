//! The read-write capability: a value that is either an owned instance or an
//! exclusive reference to an instance owned elsewhere.

use crate::sealed::Sealed;
use vstd::prelude::*;

verus! {

/// A representation of an instance of a type that is either the instance
/// itself, or a mutable reference to the instance.
///
/// Either form is capable of:
/// * producing a shared reference to the underlying value through the
///   `get_ref` method, and
/// * producing a mutable reference through the `get_mut` method.
///
/// The trait is sealed: only the two forms implemented here can satisfy it.
pub trait SoM<T>: Sealed {
    /// The underlying value this wrapper gives access to.
    spec fn som_value(&self) -> T;

    /// Returns a shared reference to the underlying value.
    ///
    /// The reference observes exactly `som_value()`; the call never mutates
    /// anything, so repeated calls observe the same value.
    fn get_ref(&self) -> (r: &T)
        ensures
            *r == self.som_value(),
    ;

    /// Returns a mutable reference to the underlying value.
    ///
    /// The reference first observes the wrapper's current value; whatever the
    /// caller leaves behind the reference becomes the wrapper's new value.
    fn get_mut(&mut self) -> (r: &mut T)
        ensures
            *r == (*old(self)).som_value(),
            (*final(self)).som_value() == *final(r),
    ;
}

impl<T> SoM<T> for T {
    open spec fn som_value(&self) -> T {
        *self
    }

    fn get_ref(&self) -> (r: &T) {
        self
    }

    fn get_mut(&mut self) -> (r: &mut T) {
        self
    }
}

impl<T> SoM<T> for &mut T {
    open spec fn som_value(&self) -> T {
        **self
    }

    fn get_ref(&self) -> (r: &T) {
        &**self
    }

    fn get_mut(&mut self) -> (r: &mut T) {
        &mut **self
    }
}

/// Law: a write through the exclusive view of the reference form lands
/// behind the held reference, that is, in the original storage the wrapper
/// borrows from; the wrapper's final observation is the written value, and
/// the host's borrow discipline makes that the storage's value once the
/// wrapper is discarded.
pub fn mutation_reaches_storage<T>(wrapper: &mut &mut T, value: T)
    ensures
        **final(wrapper) == value,
{
    let view = SoM::get_mut(wrapper);
    *view = value;
}

/// Law: two consecutive shared views of one read-write wrapper, with no
/// intervening mutation, observe identical state.
pub fn exclusive_wrapper_views_agree<T, M: SoM<T>>(wrapper: &M) -> (views: (&T, &T))
    ensures
        *views.0 == *views.1,
        *views.0 == wrapper.som_value(),
{
    (wrapper.get_ref(), wrapper.get_ref())
}

/// Law: a write through the exclusive view of the owned form lands in the
/// wrapper itself; the wrapper owns its value, so no other storage can be
/// affected.
pub fn owned_mutation_is_local<T>(wrapper: T, value: T) -> (result: T)
    ensures
        result == value,
{
    let mut wrapper = wrapper;
    let view = SoM::get_mut(&mut wrapper);
    *view = value;
    wrapper
}

} // verus!

