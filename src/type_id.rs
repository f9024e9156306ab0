//! Type identifiers bound to the lifetime of the type they were taken from.
use vstd::prelude::*;

use std::marker::PhantomData;

use crate::as_static::{AsStatic, Registry};
use crate::representative::TypeRep;

verus! {

/// The identity of a type modulo lifetimes, tagged with a lifetime `'a` that
/// the type outlives, so that it cannot be kept beyond the borrows it came from.
///
/// Its value is the type's representative: two identifiers are equal exactly
/// when their representatives are. Hashing and ordering depend on the
/// representative alone, so identifiers can key a map from types to data.
#[derive(Debug, Eq, Hash, PartialOrd, Ord)]
pub struct BoundedTypeId<'a> {
    rep: TypeRep,
    bound: PhantomData<&'a ()>,
}

impl<'a> View for BoundedTypeId<'a> {
    type V = TypeRep;

    closed spec fn view(&self) -> TypeRep {
        self.rep
    }
}

impl<'a> BoundedTypeId<'a> {
    /// The identifier of `T`, as a value.
    pub closed spec fn spec_of<T: 'a + AsStatic + ?Sized>() -> BoundedTypeId<'a> {
        BoundedTypeId { rep: T::rep(), bound: PhantomData }
    }

    /// The identifier of `T`.
    pub fn of<T: 'a + AsStatic + ?Sized>() -> (r: BoundedTypeId<'a>)
        ensures
            r == Self::spec_of::<T>(),
            r@ == T::rep(),
    {
        BoundedTypeId { rep: T::type_rep(&Registry::grant()), bound: PhantomData }
    }

    /// The representative this identifier stands for.
    pub fn rep(&self) -> (r: &TypeRep)
        ensures
            *r == self@,
    {
        &self.rep
    }
}

impl<'a> Clone for BoundedTypeId<'a> {
    fn clone(&self) -> (r: BoundedTypeId<'a>)
        ensures
            r@ == self@,
    {
        BoundedTypeId { rep: self.rep.clone(), bound: PhantomData }
    }
}

impl<'a> PartialEq for BoundedTypeId<'a> {
    fn eq(&self, other: &BoundedTypeId<'a>) -> (r: bool)
        ensures
            r == (self@ == other@),
    {
        self.rep.same(&other.rep)
    }
}

impl<'a> vstd::std_specs::cmp::PartialEqSpecImpl for BoundedTypeId<'a> {
    open spec fn obeys_eq_spec() -> bool {
        true
    }

    open spec fn eq_spec(&self, other: &BoundedTypeId<'a>) -> bool {
        self@ == other@
    }
}

} // verus!
