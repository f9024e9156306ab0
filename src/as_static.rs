//! The closed registry of supported type shapes and their representatives.
//!
//! Layout identity: a type and its representative differ only in the
//! lifetimes carried by references inside it. Lifetimes are erased before
//! code generation, so two types with the same representative are laid out
//! identically; this is what lets a dynamic view reinterpret one as the other.
//! Every rule below builds the representative of a shape from the
//! representatives of its components, so that argument holds by structure.
use vstd::prelude::*;

use crate::representative::TypeRep;

verus! {

/// Permission to compute a representative. It cannot be named outside this
/// crate, which keeps the registry of supported shapes closed.
pub struct Registry {
    unit: (),
}

impl Registry {
    pub(crate) fn grant() -> (r: Registry) {
        Registry { unit: () }
    }
}

/// A type with a lifetime-erased representative.
///
/// Implemented only by this crate, for the shapes listed here: the fixed-width
/// integers, `bool`, `()`, `str`, `String`; shared and exclusive references;
/// slices and `Vec`s of sized elements; `Box` and `Rc`; tuples of one to
/// five sized components; arrays of length 0 to 32. Any other shape has no
/// implementation and is rejected when the program is compiled.
///
/// `std::rc::Weak` is not among them: its type carries an allocator parameter,
/// and the verifier can only be told of such a type through a declaration
/// that names the unstable `Allocator` trait.
pub trait AsStatic {
    /// The representative of `Self`.
    spec fn rep() -> TypeRep;

    /// Builds the representative of `Self` at run time.
    fn type_rep(registry: &Registry) -> (r: TypeRep)
        ensures
            r == Self::rep(),
    ;
}

// Leaves hold no references, so they are their own representatives and the
// layout argument is trivial.
impl AsStatic for i8 {
    open spec fn rep() -> TypeRep {
        TypeRep::I8
    }

    fn type_rep(_registry: &Registry) -> (r: TypeRep) {
        TypeRep::I8
    }
}

impl AsStatic for i16 {
    open spec fn rep() -> TypeRep {
        TypeRep::I16
    }

    fn type_rep(_registry: &Registry) -> (r: TypeRep) {
        TypeRep::I16
    }
}

impl AsStatic for i32 {
    open spec fn rep() -> TypeRep {
        TypeRep::I32
    }

    fn type_rep(_registry: &Registry) -> (r: TypeRep) {
        TypeRep::I32
    }
}

impl AsStatic for i64 {
    open spec fn rep() -> TypeRep {
        TypeRep::I64
    }

    fn type_rep(_registry: &Registry) -> (r: TypeRep) {
        TypeRep::I64
    }
}

impl AsStatic for isize {
    open spec fn rep() -> TypeRep {
        TypeRep::Isize
    }

    fn type_rep(_registry: &Registry) -> (r: TypeRep) {
        TypeRep::Isize
    }
}

impl AsStatic for u8 {
    open spec fn rep() -> TypeRep {
        TypeRep::U8
    }

    fn type_rep(_registry: &Registry) -> (r: TypeRep) {
        TypeRep::U8
    }
}

impl AsStatic for u16 {
    open spec fn rep() -> TypeRep {
        TypeRep::U16
    }

    fn type_rep(_registry: &Registry) -> (r: TypeRep) {
        TypeRep::U16
    }
}

impl AsStatic for u32 {
    open spec fn rep() -> TypeRep {
        TypeRep::U32
    }

    fn type_rep(_registry: &Registry) -> (r: TypeRep) {
        TypeRep::U32
    }
}

impl AsStatic for u64 {
    open spec fn rep() -> TypeRep {
        TypeRep::U64
    }

    fn type_rep(_registry: &Registry) -> (r: TypeRep) {
        TypeRep::U64
    }
}

impl AsStatic for usize {
    open spec fn rep() -> TypeRep {
        TypeRep::Usize
    }

    fn type_rep(_registry: &Registry) -> (r: TypeRep) {
        TypeRep::Usize
    }
}

impl AsStatic for bool {
    open spec fn rep() -> TypeRep {
        TypeRep::Bool
    }

    fn type_rep(_registry: &Registry) -> (r: TypeRep) {
        TypeRep::Bool
    }
}

impl AsStatic for () {
    open spec fn rep() -> TypeRep {
        TypeRep::Unit
    }

    fn type_rep(_registry: &Registry) -> (r: TypeRep) {
        TypeRep::Unit
    }
}

impl AsStatic for str {
    open spec fn rep() -> TypeRep {
        TypeRep::Str
    }

    fn type_rep(_registry: &Registry) -> (r: TypeRep) {
        TypeRep::Str
    }
}

impl AsStatic for String {
    open spec fn rep() -> TypeRep {
        TypeRep::OwnedString
    }

    fn type_rep(_registry: &Registry) -> (r: TypeRep) {
        TypeRep::OwnedString
    }
}

// A reference is a pointer (with the same metadata for unsized targets)
// whatever its lifetime; the target keeps its layout by the rule for `T`.
impl<'b, T: AsStatic + ?Sized> AsStatic for &'b T {
    open spec fn rep() -> TypeRep {
        TypeRep::Ref(Box::new(T::rep()))
    }

    fn type_rep(registry: &Registry) -> (r: TypeRep) {
        TypeRep::Ref(Box::new(T::type_rep(registry)))
    }
}

impl<'b, T: AsStatic + ?Sized> AsStatic for &'b mut T {
    open spec fn rep() -> TypeRep {
        TypeRep::RefMut(Box::new(T::rep()))
    }

    fn type_rep(registry: &Registry) -> (r: TypeRep) {
        TypeRep::RefMut(Box::new(T::type_rep(registry)))
    }
}

// Containers store their elements unchanged; elements whose layouts agree
// make containers whose layouts agree.
impl<T: AsStatic> AsStatic for [T] {
    open spec fn rep() -> TypeRep {
        TypeRep::Slice(Box::new(T::rep()))
    }

    fn type_rep(registry: &Registry) -> (r: TypeRep) {
        TypeRep::Slice(Box::new(T::type_rep(registry)))
    }
}

impl<T: AsStatic + ?Sized> AsStatic for Box<T> {
    open spec fn rep() -> TypeRep {
        TypeRep::Boxed(Box::new(T::rep()))
    }

    fn type_rep(registry: &Registry) -> (r: TypeRep) {
        TypeRep::Boxed(Box::new(T::type_rep(registry)))
    }
}

impl<T: AsStatic> AsStatic for Vec<T> {
    open spec fn rep() -> TypeRep {
        TypeRep::Growable(Box::new(T::rep()))
    }

    fn type_rep(registry: &Registry) -> (r: TypeRep) {
        TypeRep::Growable(Box::new(T::type_rep(registry)))
    }
}

impl<T: AsStatic + ?Sized> AsStatic for std::rc::Rc<T> {
    open spec fn rep() -> TypeRep {
        TypeRep::Shared(Box::new(T::rep()))
    }

    fn type_rep(registry: &Registry) -> (r: TypeRep) {
        TypeRep::Shared(Box::new(T::type_rep(registry)))
    }
}

// Tuples are laid out from their components alone.
impl<A: AsStatic> AsStatic for (A,) {
    open spec fn rep() -> TypeRep {
        TypeRep::Tuple1(Box::new(A::rep()))
    }

    fn type_rep(registry: &Registry) -> (r: TypeRep) {
        TypeRep::Tuple1(Box::new(A::type_rep(registry)))
    }
}

impl<A: AsStatic, B: AsStatic> AsStatic for (A, B) {
    open spec fn rep() -> TypeRep {
        TypeRep::Tuple2(Box::new(A::rep()), Box::new(B::rep()))
    }

    fn type_rep(registry: &Registry) -> (r: TypeRep) {
        TypeRep::Tuple2(Box::new(A::type_rep(registry)), Box::new(B::type_rep(registry)))
    }
}

impl<A: AsStatic, B: AsStatic, C: AsStatic> AsStatic for (A, B, C) {
    open spec fn rep() -> TypeRep {
        TypeRep::Tuple3(Box::new(A::rep()), Box::new(B::rep()), Box::new(C::rep()))
    }

    fn type_rep(registry: &Registry) -> (r: TypeRep) {
        TypeRep::Tuple3(
            Box::new(A::type_rep(registry)),
            Box::new(B::type_rep(registry)),
            Box::new(C::type_rep(registry)),
        )
    }
}

impl<A: AsStatic, B: AsStatic, C: AsStatic, D: AsStatic> AsStatic for (A, B, C, D) {
    open spec fn rep() -> TypeRep {
        TypeRep::Tuple4(
            Box::new(A::rep()),
            Box::new(B::rep()),
            Box::new(C::rep()),
            Box::new(D::rep()),
        )
    }

    fn type_rep(registry: &Registry) -> (r: TypeRep) {
        TypeRep::Tuple4(
            Box::new(A::type_rep(registry)),
            Box::new(B::type_rep(registry)),
            Box::new(C::type_rep(registry)),
            Box::new(D::type_rep(registry)),
        )
    }
}

impl<A: AsStatic, B: AsStatic, C: AsStatic, D: AsStatic, E: AsStatic> AsStatic for (A, B, C, D, E) {
    open spec fn rep() -> TypeRep {
        TypeRep::Tuple5(
            Box::new(A::rep()),
            Box::new(B::rep()),
            Box::new(C::rep()),
            Box::new(D::rep()),
            Box::new(E::rep()),
        )
    }

    fn type_rep(registry: &Registry) -> (r: TypeRep) {
        TypeRep::Tuple5(
            Box::new(A::type_rep(registry)),
            Box::new(B::type_rep(registry)),
            Box::new(C::type_rep(registry)),
            Box::new(D::type_rep(registry)),
            Box::new(E::type_rep(registry)),
        )
    }
}

// An array is its elements side by side, so its layout is fixed by the
// element layout and the length, which the representative keeps.
impl<T: AsStatic> AsStatic for [T; 0] {
    open spec fn rep() -> TypeRep {
        TypeRep::Array(Box::new(T::rep()), 0)
    }

    fn type_rep(registry: &Registry) -> (r: TypeRep) {
        TypeRep::Array(Box::new(T::type_rep(registry)), 0)
    }
}

impl<T: AsStatic> AsStatic for [T; 1] {
    open spec fn rep() -> TypeRep {
        TypeRep::Array(Box::new(T::rep()), 1)
    }

    fn type_rep(registry: &Registry) -> (r: TypeRep) {
        TypeRep::Array(Box::new(T::type_rep(registry)), 1)
    }
}

impl<T: AsStatic> AsStatic for [T; 2] {
    open spec fn rep() -> TypeRep {
        TypeRep::Array(Box::new(T::rep()), 2)
    }

    fn type_rep(registry: &Registry) -> (r: TypeRep) {
        TypeRep::Array(Box::new(T::type_rep(registry)), 2)
    }
}

impl<T: AsStatic> AsStatic for [T; 3] {
    open spec fn rep() -> TypeRep {
        TypeRep::Array(Box::new(T::rep()), 3)
    }

    fn type_rep(registry: &Registry) -> (r: TypeRep) {
        TypeRep::Array(Box::new(T::type_rep(registry)), 3)
    }
}

impl<T: AsStatic> AsStatic for [T; 4] {
    open spec fn rep() -> TypeRep {
        TypeRep::Array(Box::new(T::rep()), 4)
    }

    fn type_rep(registry: &Registry) -> (r: TypeRep) {
        TypeRep::Array(Box::new(T::type_rep(registry)), 4)
    }
}

impl<T: AsStatic> AsStatic for [T; 5] {
    open spec fn rep() -> TypeRep {
        TypeRep::Array(Box::new(T::rep()), 5)
    }

    fn type_rep(registry: &Registry) -> (r: TypeRep) {
        TypeRep::Array(Box::new(T::type_rep(registry)), 5)
    }
}

impl<T: AsStatic> AsStatic for [T; 6] {
    open spec fn rep() -> TypeRep {
        TypeRep::Array(Box::new(T::rep()), 6)
    }

    fn type_rep(registry: &Registry) -> (r: TypeRep) {
        TypeRep::Array(Box::new(T::type_rep(registry)), 6)
    }
}

impl<T: AsStatic> AsStatic for [T; 7] {
    open spec fn rep() -> TypeRep {
        TypeRep::Array(Box::new(T::rep()), 7)
    }

    fn type_rep(registry: &Registry) -> (r: TypeRep) {
        TypeRep::Array(Box::new(T::type_rep(registry)), 7)
    }
}

impl<T: AsStatic> AsStatic for [T; 8] {
    open spec fn rep() -> TypeRep {
        TypeRep::Array(Box::new(T::rep()), 8)
    }

    fn type_rep(registry: &Registry) -> (r: TypeRep) {
        TypeRep::Array(Box::new(T::type_rep(registry)), 8)
    }
}

impl<T: AsStatic> AsStatic for [T; 9] {
    open spec fn rep() -> TypeRep {
        TypeRep::Array(Box::new(T::rep()), 9)
    }

    fn type_rep(registry: &Registry) -> (r: TypeRep) {
        TypeRep::Array(Box::new(T::type_rep(registry)), 9)
    }
}

impl<T: AsStatic> AsStatic for [T; 10] {
    open spec fn rep() -> TypeRep {
        TypeRep::Array(Box::new(T::rep()), 10)
    }

    fn type_rep(registry: &Registry) -> (r: TypeRep) {
        TypeRep::Array(Box::new(T::type_rep(registry)), 10)
    }
}

impl<T: AsStatic> AsStatic for [T; 11] {
    open spec fn rep() -> TypeRep {
        TypeRep::Array(Box::new(T::rep()), 11)
    }

    fn type_rep(registry: &Registry) -> (r: TypeRep) {
        TypeRep::Array(Box::new(T::type_rep(registry)), 11)
    }
}

impl<T: AsStatic> AsStatic for [T; 12] {
    open spec fn rep() -> TypeRep {
        TypeRep::Array(Box::new(T::rep()), 12)
    }

    fn type_rep(registry: &Registry) -> (r: TypeRep) {
        TypeRep::Array(Box::new(T::type_rep(registry)), 12)
    }
}

impl<T: AsStatic> AsStatic for [T; 13] {
    open spec fn rep() -> TypeRep {
        TypeRep::Array(Box::new(T::rep()), 13)
    }

    fn type_rep(registry: &Registry) -> (r: TypeRep) {
        TypeRep::Array(Box::new(T::type_rep(registry)), 13)
    }
}

impl<T: AsStatic> AsStatic for [T; 14] {
    open spec fn rep() -> TypeRep {
        TypeRep::Array(Box::new(T::rep()), 14)
    }

    fn type_rep(registry: &Registry) -> (r: TypeRep) {
        TypeRep::Array(Box::new(T::type_rep(registry)), 14)
    }
}

impl<T: AsStatic> AsStatic for [T; 15] {
    open spec fn rep() -> TypeRep {
        TypeRep::Array(Box::new(T::rep()), 15)
    }

    fn type_rep(registry: &Registry) -> (r: TypeRep) {
        TypeRep::Array(Box::new(T::type_rep(registry)), 15)
    }
}

impl<T: AsStatic> AsStatic for [T; 16] {
    open spec fn rep() -> TypeRep {
        TypeRep::Array(Box::new(T::rep()), 16)
    }

    fn type_rep(registry: &Registry) -> (r: TypeRep) {
        TypeRep::Array(Box::new(T::type_rep(registry)), 16)
    }
}

impl<T: AsStatic> AsStatic for [T; 17] {
    open spec fn rep() -> TypeRep {
        TypeRep::Array(Box::new(T::rep()), 17)
    }

    fn type_rep(registry: &Registry) -> (r: TypeRep) {
        TypeRep::Array(Box::new(T::type_rep(registry)), 17)
    }
}

impl<T: AsStatic> AsStatic for [T; 18] {
    open spec fn rep() -> TypeRep {
        TypeRep::Array(Box::new(T::rep()), 18)
    }

    fn type_rep(registry: &Registry) -> (r: TypeRep) {
        TypeRep::Array(Box::new(T::type_rep(registry)), 18)
    }
}

impl<T: AsStatic> AsStatic for [T; 19] {
    open spec fn rep() -> TypeRep {
        TypeRep::Array(Box::new(T::rep()), 19)
    }

    fn type_rep(registry: &Registry) -> (r: TypeRep) {
        TypeRep::Array(Box::new(T::type_rep(registry)), 19)
    }
}

impl<T: AsStatic> AsStatic for [T; 20] {
    open spec fn rep() -> TypeRep {
        TypeRep::Array(Box::new(T::rep()), 20)
    }

    fn type_rep(registry: &Registry) -> (r: TypeRep) {
        TypeRep::Array(Box::new(T::type_rep(registry)), 20)
    }
}

impl<T: AsStatic> AsStatic for [T; 21] {
    open spec fn rep() -> TypeRep {
        TypeRep::Array(Box::new(T::rep()), 21)
    }

    fn type_rep(registry: &Registry) -> (r: TypeRep) {
        TypeRep::Array(Box::new(T::type_rep(registry)), 21)
    }
}

impl<T: AsStatic> AsStatic for [T; 22] {
    open spec fn rep() -> TypeRep {
        TypeRep::Array(Box::new(T::rep()), 22)
    }

    fn type_rep(registry: &Registry) -> (r: TypeRep) {
        TypeRep::Array(Box::new(T::type_rep(registry)), 22)
    }
}

impl<T: AsStatic> AsStatic for [T; 23] {
    open spec fn rep() -> TypeRep {
        TypeRep::Array(Box::new(T::rep()), 23)
    }

    fn type_rep(registry: &Registry) -> (r: TypeRep) {
        TypeRep::Array(Box::new(T::type_rep(registry)), 23)
    }
}

impl<T: AsStatic> AsStatic for [T; 24] {
    open spec fn rep() -> TypeRep {
        TypeRep::Array(Box::new(T::rep()), 24)
    }

    fn type_rep(registry: &Registry) -> (r: TypeRep) {
        TypeRep::Array(Box::new(T::type_rep(registry)), 24)
    }
}

impl<T: AsStatic> AsStatic for [T; 25] {
    open spec fn rep() -> TypeRep {
        TypeRep::Array(Box::new(T::rep()), 25)
    }

    fn type_rep(registry: &Registry) -> (r: TypeRep) {
        TypeRep::Array(Box::new(T::type_rep(registry)), 25)
    }
}

impl<T: AsStatic> AsStatic for [T; 26] {
    open spec fn rep() -> TypeRep {
        TypeRep::Array(Box::new(T::rep()), 26)
    }

    fn type_rep(registry: &Registry) -> (r: TypeRep) {
        TypeRep::Array(Box::new(T::type_rep(registry)), 26)
    }
}

impl<T: AsStatic> AsStatic for [T; 27] {
    open spec fn rep() -> TypeRep {
        TypeRep::Array(Box::new(T::rep()), 27)
    }

    fn type_rep(registry: &Registry) -> (r: TypeRep) {
        TypeRep::Array(Box::new(T::type_rep(registry)), 27)
    }
}

impl<T: AsStatic> AsStatic for [T; 28] {
    open spec fn rep() -> TypeRep {
        TypeRep::Array(Box::new(T::rep()), 28)
    }

    fn type_rep(registry: &Registry) -> (r: TypeRep) {
        TypeRep::Array(Box::new(T::type_rep(registry)), 28)
    }
}

impl<T: AsStatic> AsStatic for [T; 29] {
    open spec fn rep() -> TypeRep {
        TypeRep::Array(Box::new(T::rep()), 29)
    }

    fn type_rep(registry: &Registry) -> (r: TypeRep) {
        TypeRep::Array(Box::new(T::type_rep(registry)), 29)
    }
}

impl<T: AsStatic> AsStatic for [T; 30] {
    open spec fn rep() -> TypeRep {
        TypeRep::Array(Box::new(T::rep()), 30)
    }

    fn type_rep(registry: &Registry) -> (r: TypeRep) {
        TypeRep::Array(Box::new(T::type_rep(registry)), 30)
    }
}

impl<T: AsStatic> AsStatic for [T; 31] {
    open spec fn rep() -> TypeRep {
        TypeRep::Array(Box::new(T::rep()), 31)
    }

    fn type_rep(registry: &Registry) -> (r: TypeRep) {
        TypeRep::Array(Box::new(T::type_rep(registry)), 31)
    }
}

impl<T: AsStatic> AsStatic for [T; 32] {
    open spec fn rep() -> TypeRep {
        TypeRep::Array(Box::new(T::rep()), 32)
    }

    fn type_rep(registry: &Registry) -> (r: TypeRep) {
        TypeRep::Array(Box::new(T::type_rep(registry)), 32)
    }
}

} // verus!
