use std::collections::HashMap;
use std::rc::Rc;

use bounded_any::{BoundedAnyMut, BoundedAnyRef, BoundedTypeId, TypeRep};

#[test]
fn identifiers_of_same_type_are_equal() {
    assert_eq!(BoundedTypeId::of::<i32>(), BoundedTypeId::of::<i32>());
    assert_eq!(BoundedTypeId::of::<&str>(), BoundedTypeId::of::<&str>());
    assert_eq!(BoundedTypeId::of::<Vec<(u8, bool)>>(), BoundedTypeId::of::<Vec<(u8, bool)>>());
    assert_eq!(BoundedTypeId::of::<[&String; 32]>(), BoundedTypeId::of::<[&String; 32]>());
    assert_eq!(BoundedTypeId::of::<Rc<Box<str>>>(), BoundedTypeId::of::<Rc<Box<str>>>());
}

#[test]
fn identifiers_of_different_types_differ() {
    assert_ne!(BoundedTypeId::of::<i32>(), BoundedTypeId::of::<u32>());
    assert_ne!(BoundedTypeId::of::<&i32>(), BoundedTypeId::of::<&mut i32>());
    assert_ne!(BoundedTypeId::of::<Vec<u8>>(), BoundedTypeId::of::<[u8]>());
    assert_ne!(BoundedTypeId::of::<(i32,)>(), BoundedTypeId::of::<i32>());
    assert_ne!(BoundedTypeId::of::<(u8, bool)>(), BoundedTypeId::of::<(bool, u8)>());
    assert_ne!(BoundedTypeId::of::<Box<u8>>(), BoundedTypeId::of::<Rc<u8>>());
    assert_ne!(BoundedTypeId::of::<str>(), BoundedTypeId::of::<String>());
    assert_ne!(BoundedTypeId::of::<()>(), BoundedTypeId::of::<bool>());
}

fn id_of_ref<'x>(_r: &'x i32) -> BoundedTypeId<'x> {
    BoundedTypeId::of::<&'x i32>()
}

#[test]
fn identifiers_ignore_lifetimes() {
    let outer: i32 = 1;
    let id_outer = id_of_ref(&outer);
    {
        let inner: i32 = 2;
        let id_inner = id_of_ref(&inner);
        assert!(id_inner == id_outer);
    }
    assert_eq!(id_outer, BoundedTypeId::of::<&'static i32>());
}

#[test]
fn identifier_holds_its_representative() {
    let id = BoundedTypeId::of::<[&u8; 3]>();
    let expected = TypeRep::Array(Box::new(TypeRep::Ref(Box::new(TypeRep::U8))), 3);
    assert_eq!(id.rep(), &expected);
    let tuple = BoundedTypeId::of::<(i64, String, usize, (), isize)>();
    let expected_tuple = TypeRep::Tuple5(
        Box::new(TypeRep::I64),
        Box::new(TypeRep::OwnedString),
        Box::new(TypeRep::Usize),
        Box::new(TypeRep::Unit),
        Box::new(TypeRep::Isize),
    );
    assert_eq!(tuple.rep(), &expected_tuple);
    assert_eq!(id.clone(), id);
}

#[test]
fn identifiers_key_a_map() {
    let mut names: HashMap<BoundedTypeId, &str> = HashMap::new();
    names.insert(BoundedTypeId::of::<&str>(), "string slice reference");
    names.insert(BoundedTypeId::of::<String>(), "owned string");
    let local = String::from("short-lived");
    let borrowed: &str = &local;
    let view = BoundedAnyRef::from(&borrowed);
    assert_eq!(names.get(&view.type_id()), Some(&"string slice reference"));
    assert_eq!(names.get(&BoundedTypeId::of::<u8>()), None);
    assert_eq!(names.len(), 2);
}

#[test]
fn identifiers_are_ordered() {
    let a = BoundedTypeId::of::<u8>();
    let b = BoundedTypeId::of::<u8>();
    assert_eq!(a.cmp(&b), std::cmp::Ordering::Equal);
    let c = BoundedTypeId::of::<u16>();
    assert_ne!(a.cmp(&c), std::cmp::Ordering::Equal);
}

#[test]
fn view_identifies_its_own_type() {
    let text = String::from("borrowed");
    let slice: &str = &text;
    assert!(BoundedAnyRef::from(&slice).is::<&str>());
    assert!(BoundedAnyRef::from(&text).is::<String>());
    let pair: (u16, &str) = (7, slice);
    assert!(BoundedAnyRef::from(&pair).is::<(u16, &str)>());
    let nested: Vec<Box<&str>> = vec![Box::new(slice)];
    assert!(BoundedAnyRef::from(&nested).is::<Vec<Box<&str>>>());
    let unit = ();
    assert!(BoundedAnyRef::from(&unit).is::<()>());
}

#[test]
fn view_rejects_other_types() {
    let value: u64 = 9;
    let view = BoundedAnyRef::from(&value);
    assert!(!view.is::<i64>());
    assert!(!view.is::<&u64>());
    assert!(!view.is::<(u64,)>());
    assert!(!view.is::<[u64; 1]>());
    assert!(!view.is::<Vec<u64>>());
}

#[test]
fn view_type_id_matches_identifier() {
    let flag = true;
    let view = BoundedAnyRef::from(&flag);
    assert_eq!(view.type_id(), BoundedTypeId::of::<bool>());
    let copy = view.clone();
    assert!(copy.is::<bool>());
}

#[test]
fn exclusive_view_identifies_its_type() {
    let mut count: u64 = 5;
    {
        let view = BoundedAnyMut::from(&mut count);
        assert!(view.is::<u64>());
        assert!(!view.is::<u32>());
        assert_eq!(view.type_id(), BoundedTypeId::of::<u64>());
    }
    count += 1;
    assert_eq!(count, 6);
}

#[test]
fn exclusive_view_of_borrowing_value() {
    let owner = String::from("owner");
    let mut holder: Vec<&str> = vec![&owner];
    let view = BoundedAnyMut::from(&mut holder);
    assert!(view.is::<Vec<&str>>());
    assert!(!view.is::<Vec<String>>());
    assert!(!view.is::<&[&str]>());
}

#[test]
fn array_of_five_is_one_unit() {
    let values: [i16; 5] = [1, 2, 3, 4, 5];
    let view = BoundedAnyRef::from(&values);
    assert!(view.is::<[i16; 5]>());
    assert!(!view.is::<[i16; 4]>());
    assert!(!view.is::<[i16; 6]>());
    assert!(!view.is::<[u16; 5]>());
    assert!(!view.is::<i16>());
    assert!(!view.is::<Vec<i16>>());
}

#[test]
fn empty_and_largest_arrays() {
    let empty: [u8; 0] = [];
    let view = BoundedAnyRef::from(&empty);
    assert!(view.is::<[u8; 0]>());
    assert!(!view.is::<[u8; 1]>());
    let big: [u8; 32] = [0; 32];
    let big_view = BoundedAnyRef::from(&big);
    assert!(big_view.is::<[u8; 32]>());
    assert!(!big_view.is::<[u8; 31]>());
}

#[test]
fn signed_integer_scenario() {
    let value: i32 = 42;
    let view = BoundedAnyRef::from(&value);
    assert!(view.is::<i32>());
    assert!(!view.is::<u32>());
    assert_eq!(view.type_id(), BoundedTypeId::of::<i32>());
}

#[test]
fn slice_of_string_references_scenario() {
    let a = String::from("one");
    let b = String::from("two");
    let c = String::from("three");
    let refs: [&str; 3] = [&a, &b, &c];
    let slice: &[&str] = &refs;
    assert_ne!(BoundedTypeId::of::<[&str]>(), BoundedTypeId::of::<[String]>());
    let view = BoundedAnyRef::from(&slice);
    assert!(view.is::<&[&str]>());
    assert!(!view.is::<&[String]>());
    assert!(!view.is::<&[&String]>());
    assert_eq!(slice.len(), 3);
}

#[test]
fn representatives_compare_structurally() {
    let a = TypeRep::Tuple2(Box::new(TypeRep::Ref(Box::new(TypeRep::Str))), Box::new(TypeRep::Bool));
    let b = a.clone();
    assert!(a.same(&b));
    let c = TypeRep::Tuple2(Box::new(TypeRep::Ref(Box::new(TypeRep::Str))), Box::new(TypeRep::Unit));
    assert!(!a.same(&c));
    let d = TypeRep::Array(Box::new(TypeRep::U8), 4);
    assert!(!d.same(&TypeRep::Array(Box::new(TypeRep::U8), 5)));
    assert!(d.same(&TypeRep::Array(Box::new(TypeRep::U8), 4)));
}

#[test]
fn exclusive_view_leaves_value_unchanged() {
    let mut v: i32 = 42;
    {
        let view = BoundedAnyMut::from(&mut v);
        assert!(!view.is::<u32>());
        assert!(!view.is::<i64>());
        assert!(!view.is::<[i32; 1]>());
        assert!(view.is::<i32>());
    }
    assert_eq!(v, 42);
}
