//! Laws relating identifiers, views and representatives.
use vstd::prelude::*;

use crate::any_view::{BoundedAnyMut, BoundedAnyRef};
use crate::as_static::AsStatic;
use crate::type_id::BoundedTypeId;

verus! {

/// Lifetimes do not take part in identity: references to the same type under
/// any two lifetimes share their representative.
pub proof fn lemma_lifetimes_erased<'x, 'y, T: AsStatic + ?Sized>()
    ensures
        <&'x T as AsStatic>::rep() == <&'y T as AsStatic>::rep(),
        <&'x mut T as AsStatic>::rep() == <&'y mut T as AsStatic>::rep(),
{
}

/// Identifiers of `T` and `U` are equal exactly when the two types share a
/// representative: an identifier always equals another taken of the same type,
/// and never one taken of a type with a different representative.
pub proof fn lemma_identifier_equality<'a, T: AsStatic + ?Sized, U: AsStatic + ?Sized>(
    a: BoundedTypeId<'a>,
    b: BoundedTypeId<'a>,
)
    requires
        a@ == T::rep(),
        b@ == U::rep(),
    ensures
        (a@ == b@) <==> (T::rep() == U::rep()),
{
}

/// A view made from a borrow of a `T` is identified as a `T`.
pub proof fn lemma_view_is_own_type<'a, T: AsStatic>(
    shared: BoundedAnyRef<'a>,
    exclusive: BoundedAnyMut<'a>,
)
    requires
        shared@ == T::rep(),
        exclusive@ == T::rep(),
    ensures
        shared.spec_is::<T>(),
        exclusive.spec_is::<T>(),
{
}

/// A view made from a borrow of a `T` is not identified as a `U` whose
/// representative differs from that of `T`, so no downcast to `U` is allowed.
pub proof fn lemma_view_rejects_other_type<'a, T: AsStatic, U: AsStatic>(
    shared: BoundedAnyRef<'a>,
    exclusive: BoundedAnyMut<'a>,
)
    requires
        shared@ == T::rep(),
        exclusive@ == T::rep(),
        T::rep() != U::rep(),
    ensures
        !shared.spec_is::<U>(),
        !exclusive.spec_is::<U>(),
{
}

/// An array of five elements is identified as one unit: a view of it is
/// identified as an array of five `U` exactly when the element types share a
/// representative, and never as an array of another length nor as its element
/// type.
pub proof fn lemma_array_identity<'a, T: AsStatic, U: AsStatic>(view: BoundedAnyRef<'a>)
    requires
        view@ == <[T; 5] as AsStatic>::rep(),
    ensures
        view.spec_is::<[U; 5]>() <==> (T::rep() == U::rep()),
        !view.spec_is::<[U; 4]>(),
        !view.spec_is::<[U; 6]>(),
        !view.spec_is::<T>(),
{
}

} // verus!
