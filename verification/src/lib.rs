//! Zero-cost abstractions over a generic field that is either an owned value
//! or a reference to a value owned elsewhere.
//!
//! A generic consumer bounds a type parameter by [`SoR`] (shared access) or
//! [`SoM`] (shared and exclusive access) and can then be instantiated with
//! either the value type itself or the matching reference type, without
//! branching on which case applies. Both traits are sealed: only the forms
//! provided here can implement them.

mod sealed;
mod self_or_mut;
mod self_or_ref;

pub use self_or_mut::exclusive_wrapper_views_agree;
pub use self_or_mut::mutation_reaches_storage;
pub use self_or_mut::owned_mutation_is_local;
pub use self_or_mut::SoM;
pub use self_or_ref::owned_view_observes_value;
pub use self_or_ref::shared_ref_view_is_original;
pub use self_or_ref::shared_views_agree;
pub use self_or_ref::sth;
pub use self_or_ref::SoR;
