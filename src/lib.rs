//! Runtime type identity and borrow-preserving dynamic views for values whose
//! types may carry non-`'static` lifetimes.
//!
//! Every supported type has a *representative*: a structural description of
//! the type with all lifetimes erased ([`TypeRep`]). Two types are "the same
//! modulo lifetimes" exactly when their representatives are equal.
mod any_view;
mod as_static;
pub mod laws;
mod representative;
mod type_id;

pub use any_view::{BoundedAnyMut, BoundedAnyRef};
pub use as_static::AsStatic;
pub use representative::TypeRep;
pub use type_id::BoundedTypeId;
