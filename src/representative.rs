//! The lifetime-erased representative of a supported type.
use vstd::prelude::*;

verus! {

/// Structural description of a supported type with every lifetime erased.
///
/// Leaves stand for the trivial shapes; each composite variant wraps the
/// representatives of its components, so two types share a representative
/// exactly when they have the same shape all the way down.
#[derive(Debug, Eq, Hash, PartialOrd, Ord)]
pub enum TypeRep {
    I8,
    I16,
    I32,
    I64,
    Isize,
    U8,
    U16,
    U32,
    U64,
    Usize,
    Bool,
    Unit,
    /// The string slice `str`.
    Str,
    /// The owned `String`.
    OwnedString,
    /// A shared reference `&T`.
    Ref(Box<TypeRep>),
    /// An exclusive reference `&mut T`.
    RefMut(Box<TypeRep>),
    /// A slice `[T]`.
    Slice(Box<TypeRep>),
    /// A `Box<T>`.
    Boxed(Box<TypeRep>),
    /// A `Vec<T>`.
    Growable(Box<TypeRep>),
    Tuple1(Box<TypeRep>),
    Tuple2(Box<TypeRep>, Box<TypeRep>),
    Tuple3(Box<TypeRep>, Box<TypeRep>, Box<TypeRep>),
    Tuple4(Box<TypeRep>, Box<TypeRep>, Box<TypeRep>, Box<TypeRep>),
    Tuple5(Box<TypeRep>, Box<TypeRep>, Box<TypeRep>, Box<TypeRep>, Box<TypeRep>),
    /// A fixed-size array `[T; len]`.
    Array(Box<TypeRep>, usize),
    /// An `Rc<T>`.
    Shared(Box<TypeRep>),
}

impl TypeRep {
    /// Structural equality of two representatives.
    pub fn same(&self, other: &TypeRep) -> (r: bool)
        ensures
            r == (*self == *other),
        decreases self,
    {
        match (self, other) {
            (TypeRep::I8, TypeRep::I8) => true,
            (TypeRep::I16, TypeRep::I16) => true,
            (TypeRep::I32, TypeRep::I32) => true,
            (TypeRep::I64, TypeRep::I64) => true,
            (TypeRep::Isize, TypeRep::Isize) => true,
            (TypeRep::U8, TypeRep::U8) => true,
            (TypeRep::U16, TypeRep::U16) => true,
            (TypeRep::U32, TypeRep::U32) => true,
            (TypeRep::U64, TypeRep::U64) => true,
            (TypeRep::Usize, TypeRep::Usize) => true,
            (TypeRep::Bool, TypeRep::Bool) => true,
            (TypeRep::Unit, TypeRep::Unit) => true,
            (TypeRep::Str, TypeRep::Str) => true,
            (TypeRep::OwnedString, TypeRep::OwnedString) => true,
            (TypeRep::Ref(a), TypeRep::Ref(b)) => a.same(b),
            (TypeRep::RefMut(a), TypeRep::RefMut(b)) => a.same(b),
            (TypeRep::Slice(a), TypeRep::Slice(b)) => a.same(b),
            (TypeRep::Boxed(a), TypeRep::Boxed(b)) => a.same(b),
            (TypeRep::Growable(a), TypeRep::Growable(b)) => a.same(b),
            (TypeRep::Tuple1(a), TypeRep::Tuple1(b)) => a.same(b),
            (TypeRep::Tuple2(a1, a2), TypeRep::Tuple2(b1, b2)) => a1.same(b1) && a2.same(b2),
            (TypeRep::Tuple3(a1, a2, a3), TypeRep::Tuple3(b1, b2, b3)) => a1.same(b1) && a2.same(
                b2,
            ) && a3.same(b3),
            (TypeRep::Tuple4(a1, a2, a3, a4), TypeRep::Tuple4(b1, b2, b3, b4)) => a1.same(b1)
                && a2.same(b2) && a3.same(b3) && a4.same(b4),
            (TypeRep::Tuple5(a1, a2, a3, a4, a5), TypeRep::Tuple5(b1, b2, b3, b4, b5)) => a1.same(
                b1,
            ) && a2.same(b2) && a3.same(b3) && a4.same(b4) && a5.same(b5),
            (TypeRep::Array(a, n), TypeRep::Array(b, m)) => *n == *m && a.same(b),
            (TypeRep::Shared(a), TypeRep::Shared(b)) => a.same(b),
            _ => false,
        }
    }
}

impl Clone for TypeRep {
    /// A deep copy: the result is the same representative.
    fn clone(&self) -> (r: TypeRep)
        ensures
            r == *self,
        decreases self,
    {
        match self {
            TypeRep::I8 => TypeRep::I8,
            TypeRep::I16 => TypeRep::I16,
            TypeRep::I32 => TypeRep::I32,
            TypeRep::I64 => TypeRep::I64,
            TypeRep::Isize => TypeRep::Isize,
            TypeRep::U8 => TypeRep::U8,
            TypeRep::U16 => TypeRep::U16,
            TypeRep::U32 => TypeRep::U32,
            TypeRep::U64 => TypeRep::U64,
            TypeRep::Usize => TypeRep::Usize,
            TypeRep::Bool => TypeRep::Bool,
            TypeRep::Unit => TypeRep::Unit,
            TypeRep::Str => TypeRep::Str,
            TypeRep::OwnedString => TypeRep::OwnedString,
            TypeRep::Ref(a) => TypeRep::Ref(Box::new((&**a).clone())),
            TypeRep::RefMut(a) => TypeRep::RefMut(Box::new((&**a).clone())),
            TypeRep::Slice(a) => TypeRep::Slice(Box::new((&**a).clone())),
            TypeRep::Boxed(a) => TypeRep::Boxed(Box::new((&**a).clone())),
            TypeRep::Growable(a) => TypeRep::Growable(Box::new((&**a).clone())),
            TypeRep::Tuple1(a) => TypeRep::Tuple1(Box::new((&**a).clone())),
            TypeRep::Tuple2(a, b) => TypeRep::Tuple2(
                Box::new((&**a).clone()),
                Box::new((&**b).clone()),
            ),
            TypeRep::Tuple3(a, b, c) => TypeRep::Tuple3(
                Box::new((&**a).clone()),
                Box::new((&**b).clone()),
                Box::new((&**c).clone()),
            ),
            TypeRep::Tuple4(a, b, c, d) => TypeRep::Tuple4(
                Box::new((&**a).clone()),
                Box::new((&**b).clone()),
                Box::new((&**c).clone()),
                Box::new((&**d).clone()),
            ),
            TypeRep::Tuple5(a, b, c, d, e) => TypeRep::Tuple5(
                Box::new((&**a).clone()),
                Box::new((&**b).clone()),
                Box::new((&**c).clone()),
                Box::new((&**d).clone()),
                Box::new((&**e).clone()),
            ),
            TypeRep::Array(a, n) => TypeRep::Array(Box::new((&**a).clone()), *n),
            TypeRep::Shared(a) => TypeRep::Shared(Box::new((&**a).clone())),
        }
    }
}

impl PartialEq for TypeRep {
    fn eq(&self, other: &TypeRep) -> (r: bool)
        ensures
            r == (*self == *other),
    {
        self.same(other)
    }
}

impl vstd::std_specs::cmp::PartialEqSpecImpl for TypeRep {
    open spec fn obeys_eq_spec() -> bool {
        true
    }

    open spec fn eq_spec(&self, other: &TypeRep) -> bool {
        *self == *other
    }
}

} // verus!
