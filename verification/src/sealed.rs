//! The sealing marker that closes the set of types which may implement the
//! public capabilities of this crate.

use vstd::prelude::*;

verus! {

/// Marker trait required by the public traits of this crate.
///
/// The module holding this trait is private, so downstream code cannot name
/// it and therefore cannot add implementations of the public traits beyond
/// the forms provided here: a value itself, a shared reference to one, and
/// an exclusive reference to one.
pub trait Sealed {

}

impl<T> Sealed for T {

}

} // verus!
