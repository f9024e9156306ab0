//! Dynamic views over borrowed values: the type check that decides a downcast.
//!
//! A view is made from a live borrow of a value whose type may carry
//! non-`'static` lifetimes. It records the identifier of that type and keeps
//! the borrow's lifetime `'a`, so the borrowed value stays borrowed (shared or
//! exclusively) for as long as the view is used. Whoever reinterprets the
//! borrowed memory as another type asks the view first: `is::<U>()` holds
//! exactly when `U` has the viewed type's representative, which is when the
//! two types agree up to lifetimes and so share their layout.
use vstd::prelude::*;

use crate::as_static::AsStatic;
use crate::representative::TypeRep;
use crate::type_id::BoundedTypeId;

verus! {

/// A shared dynamic view of a value borrowed for `'a`.
#[derive(Debug)]
pub struct BoundedAnyRef<'a> {
    id: BoundedTypeId<'a>,
}

impl<'a> View for BoundedAnyRef<'a> {
    type V = TypeRep;

    /// The representative of the viewed value's type.
    closed spec fn view(&self) -> TypeRep {
        self.id@
    }
}

impl<'a, T: 'a + AsStatic> From<&'a T> for BoundedAnyRef<'a> {
    fn from(value: &'a T) -> (r: BoundedAnyRef<'a>)
        ensures
            r@ == T::rep(),
    {
        BoundedAnyRef { id: BoundedTypeId::of::<T>() }
    }
}

impl<'a, T: 'a + AsStatic> vstd::std_specs::convert::FromSpecImpl<&'a T> for BoundedAnyRef<'a> {
    open spec fn obeys_from_spec() -> bool {
        true
    }

    closed spec fn from_spec(value: &'a T) -> BoundedAnyRef<'a> {
        BoundedAnyRef { id: BoundedTypeId::spec_of::<T>() }
    }
}

impl<'a> BoundedAnyRef<'a> {
    /// The viewed value is a `U`, up to lifetimes.
    pub open spec fn spec_is<U: AsStatic>(&self) -> bool {
        self@ == U::rep()
    }

    /// Whether the viewed value is a `U`, disregarding lifetimes.
    pub fn is<U: 'a + AsStatic>(&self) -> (r: bool)
        ensures
            r == self.spec_is::<U>(),
    {
        self.id == BoundedTypeId::of::<U>()
    }

    /// The identifier of the viewed value's type.
    pub fn type_id(&self) -> (r: BoundedTypeId<'a>)
        ensures
            r@ == self@,
    {
        self.id.clone()
    }
}

impl<'a> Clone for BoundedAnyRef<'a> {
    fn clone(&self) -> (r: BoundedAnyRef<'a>)
        ensures
            r@ == self@,
    {
        BoundedAnyRef { id: self.id.clone() }
    }
}

/// An exclusive dynamic view of a value borrowed mutably for `'a`.
///
/// The mutable borrow it was made from stays held while the view is used, so
/// no other view of the same value can exist meanwhile.
#[derive(Debug)]
pub struct BoundedAnyMut<'a> {
    id: BoundedTypeId<'a>,
}

impl<'a> View for BoundedAnyMut<'a> {
    type V = TypeRep;

    /// The representative of the viewed value's type.
    closed spec fn view(&self) -> TypeRep {
        self.id@
    }
}

impl<'a, T: 'a + AsStatic> From<&'a mut T> for BoundedAnyMut<'a> {
    /// Making the view reads nothing from the value and leaves it as it was.
    fn from(value: &'a mut T) -> (r: BoundedAnyMut<'a>)
        ensures
            r@ == T::rep(),
            *final(value) == *old(value),
    {
        BoundedAnyMut { id: BoundedTypeId::of::<T>() }
    }
}

impl<'a, T: 'a + AsStatic> vstd::std_specs::convert::FromSpecImpl<&'a mut T> for BoundedAnyMut<'a> {
    open spec fn obeys_from_spec() -> bool {
        true
    }

    closed spec fn from_spec(value: &'a mut T) -> BoundedAnyMut<'a> {
        BoundedAnyMut { id: BoundedTypeId::spec_of::<T>() }
    }
}

impl<'a> BoundedAnyMut<'a> {
    /// The viewed value is a `U`, up to lifetimes.
    pub open spec fn spec_is<U: AsStatic>(&self) -> bool {
        self@ == U::rep()
    }

    /// Whether the viewed value is a `U`, disregarding lifetimes.
    pub fn is<U: 'a + AsStatic>(&self) -> (r: bool)
        ensures
            r == self.spec_is::<U>(),
    {
        self.id == BoundedTypeId::of::<U>()
    }

    /// The identifier of the viewed value's type.
    pub fn type_id(&self) -> (r: BoundedTypeId<'a>)
        ensures
            r@ == self@,
    {
        self.id.clone()
    }
}

} // verus!
