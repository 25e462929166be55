use rustler_serde::codec::{text_term, read_string, TermCodec};
use rustler_serde::codegen::{
    exception_echo, generic_exception_echo, generic_map_echo, generic_record_echo,
    generic_struct_echo, generic_tuple2_echo, generic_tuple_echo_str, generic_tuple_echo_usize,
    generic_untagged_enum_echo, untagged_enum_echo, untagged_enum_for_issue_370,
    untagged_enum_with_truthy, AddException, AddStruct, GenericException, GenericMap,
    GenericRecord, GenericStruct, GenericTuple, GenericTuple2, GenericUntaggedEnum, Truthy,
    UntaggedEnum, UntaggedEnumForIssue370, UntaggedEnumWithTruthy,
};
use rustler_serde::error::Error;
use rustler_serde::reserved_keywords::{
    reserved_keywords_type_echo, KeywordMap, Record, ReservedKeywords, Struct, Tuple,
};
use rustler_serde::term::Term;

fn atom(name: &str) -> Term {
    Term::Atom(name.as_bytes().to_vec())
}

#[test]
fn primitive_codecs() {
    assert_eq!(<i32 as TermCodec>::decode(&Term::Integer(-5)), Some(-5));
    assert_eq!(<i32 as TermCodec>::decode(&Term::Integer(1 << 40)), None);
    assert_eq!(<i64 as TermCodec>::decode(&Term::Integer(1 << 40)), Some(1 << 40));
    assert_eq!(<usize as TermCodec>::decode(&Term::Integer(7)), Some(7));
    assert_eq!(<usize as TermCodec>::decode(&Term::Integer(-7)), None);
    assert_eq!(<usize as TermCodec>::decode(&Term::Integer(usize::MAX as i128 + 1)), None);
    assert!(matches!(TermCodec::encode(&5i32), Term::Integer(5)));
    assert!(matches!(TermCodec::encode(&-5i64), Term::Integer(-5)));
    assert!(matches!(TermCodec::encode(&5usize), Term::Integer(5)));
    let text = text_term("añb");
    assert_eq!(<&str as TermCodec>::decode(&text), Some("añb"));
    assert_eq!(<&str as TermCodec>::decode(&atom("a")), None);
    assert!(matches!(TermCodec::encode(&"x"), Term::Binary(b) if b == b"x"));
    assert_eq!(read_string(Some(&text)), Some("añb".to_string()));
    assert_eq!(read_string(Some(&Term::Binary(vec![0xff]))), None);
    assert_eq!(read_string(None), None);
}

#[test]
fn generic_tuples_round_trip() {
    let value = generic_tuple_echo_usize(GenericTuple { t1: 1usize, t2: 2usize });
    let term = value.encode();
    assert!(matches!(&term, Term::Tuple(v) if v.len() == 2));
    let back = GenericTuple::<usize>::decode(&term).unwrap();
    assert_eq!((back.t1, back.t2), (1, 2));
    assert!(GenericTuple::<&str>::decode(&term).is_none());
    let texts = generic_tuple_echo_str(GenericTuple { t1: "a", t2: "b" }).encode();
    let back = GenericTuple::<&str>::decode(&texts).unwrap();
    assert_eq!((back.t1, back.t2), ("a", "b"));
    let value = generic_tuple2_echo(GenericTuple2 { t: 1usize, u: -2i64, v: "c" });
    let term = value.encode();
    let back = GenericTuple2::<usize, i64, &str>::decode(&term).unwrap();
    assert_eq!((back.t, back.u, back.v), (1, -2, "c"));
    assert!(GenericTuple2::<usize, i64, i64>::decode(&term).is_none());
    assert!(GenericTuple::<usize>::decode(&term).is_none());
}

#[test]
fn generic_records_maps_and_structs_round_trip() {
    let term = generic_record_echo(GenericRecord { field1: 1i32, field2: "x" }).encode();
    match &term {
        Term::Tuple(v) => assert!(matches!(&v[0], Term::Atom(b) if b == b"generic_record")),
        _ => panic!("expected a tuple"),
    }
    let back = GenericRecord::<i32, &str>::decode(&term).unwrap();
    assert_eq!((back.field1, back.field2), (1, "x"));
    assert!(GenericRecord::<i32, i32>::decode(&term).is_none());

    let term = generic_map_echo(GenericMap { lhs: 1i32, rhs: "x" }).encode();
    let back = GenericMap::<i32, &str>::decode(&term).unwrap();
    assert_eq!((back.lhs, back.rhs), (1, "x"));
    assert!(GenericStruct::<i32, &str>::decode(&term).is_none());

    let term = generic_struct_echo(GenericStruct { lhs: 1i32, rhs: "x" }).encode();
    match &term {
        Term::Mapping(p) => {
            assert!(matches!(&p[0].1, Term::Atom(b) if b == b"Elixir.GenericStruct"))
        }
        _ => panic!("expected a map"),
    }
    let back = GenericStruct::<i32, &str>::decode(&term).unwrap();
    assert_eq!((back.lhs, back.rhs), (1, "x"));
    let nested = GenericMap { lhs: GenericTuple { t1: 1i32, t2: 2i32 }, rhs: 3i64 }.encode();
    let back = GenericMap::<GenericTuple<i32>, i64>::decode(&nested).unwrap();
    assert_eq!((back.lhs.t1, back.lhs.t2, back.rhs), (1, 2, 3));
}

#[test]
fn exceptions_round_trip() {
    let value = exception_echo(AddException { message: "boom".to_string() });
    let term = value.encode();
    match &term {
        Term::Mapping(p) => {
            assert_eq!(p.len(), 3);
            assert!(matches!(&p[0].1, Term::Atom(b) if b == b"Elixir.AddException"));
            assert!(matches!(&p[1].0, Term::Atom(b) if b == b"__exception__"));
        }
        _ => panic!("expected a map"),
    }
    assert_eq!(AddException::decode(&term).unwrap().message, "boom");
    assert!(matches!(
        AddException::decode(&AddStruct { lhs: 1, rhs: 2 }.encode()),
        Err(Error::InvalidStruct)
    ));
    assert!(matches!(AddException::decode(&atom("a")), Err(Error::ExpectedStruct)));
}

#[test]
fn untagged_enum_takes_the_first_variant_that_fits() {
    assert!(matches!(UntaggedEnum::decode(&Term::Integer(5)), Ok(UntaggedEnum::Foo(5))));
    assert!(matches!(
        UntaggedEnum::decode(&text_term("five")),
        Ok(UntaggedEnum::Bar(s)) if s == "five"
    ));
    assert!(matches!(
        UntaggedEnum::decode(&AddStruct { lhs: 1, rhs: 2 }.encode()),
        Ok(UntaggedEnum::Baz(AddStruct { lhs: 1, rhs: 2 }))
    ));
    assert!(matches!(UntaggedEnum::decode(&atom("true")), Ok(UntaggedEnum::Bool(true))));
    assert!(matches!(UntaggedEnum::decode(&atom("false")), Ok(UntaggedEnum::Bool(false))));
    assert!(matches!(UntaggedEnum::decode(&Term::Integer(-1)), Err(Error::ExpectedEnum)));
    assert!(matches!(UntaggedEnum::decode(&atom("maybe")), Err(Error::ExpectedEnum)));
    for value in [
        UntaggedEnum::Foo(u32::MAX),
        UntaggedEnum::Bar("x".to_string()),
        UntaggedEnum::Baz(AddStruct { lhs: -1, rhs: 1 }),
        UntaggedEnum::Bool(true),
        UntaggedEnum::Bool(false),
    ] {
        let term = untagged_enum_echo(value).encode();
        let back = UntaggedEnum::decode(&term).unwrap();
        assert!(matches!(UntaggedEnum::decode(&back.encode()), Ok(_)));
        match (back, UntaggedEnum::decode(&term).unwrap()) {
            (UntaggedEnum::Foo(a), UntaggedEnum::Foo(b)) => assert_eq!(a, b),
            (UntaggedEnum::Bar(a), UntaggedEnum::Bar(b)) => assert_eq!(a, b),
            (UntaggedEnum::Baz(a), UntaggedEnum::Baz(b)) => {
                assert_eq!((a.lhs, a.rhs), (b.lhs, b.rhs))
            }
            (UntaggedEnum::Bool(a), UntaggedEnum::Bool(b)) => assert_eq!(a, b),
            _ => panic!("variants differ"),
        }
    }
}

#[test]
fn lists_and_booleans_round_trip() {
    let term = TermCodec::encode(&vec![1i64, -2, 3]);
    assert!(matches!(&term, Term::List(v) if v.len() == 3));
    assert_eq!(<Vec<i64> as TermCodec>::decode(&term), Some(vec![1, -2, 3]));
    assert_eq!(<Vec<usize> as TermCodec>::decode(&term), None);
    assert_eq!(<Vec<i64> as TermCodec>::decode(&Term::List(vec![])), Some(vec![]));
    assert_eq!(<Vec<i64> as TermCodec>::decode(&Term::Tuple(vec![])), None);
    assert!(matches!(TermCodec::encode(&true), Term::Atom(b) if b == b"true"));
    assert!(matches!(TermCodec::encode(&false), Term::Atom(b) if b == b"false"));
    assert_eq!(<bool as TermCodec>::decode(&atom("false")), Some(false));
    assert_eq!(<bool as TermCodec>::decode(&atom("nil")), None);
}

#[test]
fn truthy_is_everything_but_false_and_nil() {
    assert_eq!(<Truthy as TermCodec>::decode(&atom("true")), Some(Truthy));
    assert_eq!(<Truthy as TermCodec>::decode(&Term::Integer(0)), Some(Truthy));
    assert_eq!(<Truthy as TermCodec>::decode(&atom("false")), None);
    assert_eq!(<Truthy as TermCodec>::decode(&atom("nil")), None);
    assert!(matches!(TermCodec::encode(&Truthy), Term::Atom(b) if b == b"true"));
    let sum = AddStruct { lhs: 1, rhs: 2 }.encode();
    assert!(matches!(
        UntaggedEnumWithTruthy::decode(&sum),
        Ok(UntaggedEnumWithTruthy::Baz(AddStruct { lhs: 1, rhs: 2 }))
    ));
    assert!(matches!(
        UntaggedEnumWithTruthy::decode(&Term::List(vec![])),
        Ok(UntaggedEnumWithTruthy::Truthy(Truthy))
    ));
    assert!(matches!(
        UntaggedEnumWithTruthy::decode(&atom("nil")),
        Err(Error::ExpectedEnum)
    ));
    let value = untagged_enum_with_truthy(UntaggedEnumWithTruthy::Truthy(Truthy));
    assert!(matches!(
        UntaggedEnumWithTruthy::decode(&value.encode()),
        Ok(UntaggedEnumWithTruthy::Truthy(Truthy))
    ));
    let value = UntaggedEnumWithTruthy::Baz(AddStruct { lhs: 3, rhs: 4 });
    assert!(matches!(
        UntaggedEnumWithTruthy::decode(&value.encode()),
        Ok(UntaggedEnumWithTruthy::Baz(AddStruct { lhs: 3, rhs: 4 }))
    ));
}

#[test]
fn list_enum_round_trip() {
    let value = untagged_enum_for_issue_370(UntaggedEnumForIssue370::Vec(vec![i64::MIN, 0, 9]));
    let term = value.encode();
    let UntaggedEnumForIssue370::Vec(back) = UntaggedEnumForIssue370::decode(&term).unwrap();
    assert_eq!(back, vec![i64::MIN, 0, 9]);
    assert!(matches!(
        UntaggedEnumForIssue370::decode(&Term::List(vec![atom("a")])),
        Err(Error::ExpectedEnum)
    ));
    assert!(matches!(
        UntaggedEnumForIssue370::decode(&Term::Integer(1)),
        Err(Error::ExpectedEnum)
    ));
}

#[test]
fn generic_untagged_enum_tries_the_variants_in_order() {
    let map = GenericMap { lhs: 1i32, rhs: 2i32 }.encode();
    assert!(matches!(
        GenericUntaggedEnum::<GenericMap<i32, i32>, &str>::decode(&map),
        Ok(GenericUntaggedEnum::Bar(GenericMap { lhs: 1, rhs: 2 }))
    ));
    let text = text_term("x");
    assert!(matches!(
        GenericUntaggedEnum::<GenericMap<i32, i32>, &str>::decode(&text),
        Ok(GenericUntaggedEnum::Baz("x"))
    ));
    assert!(matches!(
        GenericUntaggedEnum::<GenericMap<i32, i32>, &str>::decode(&Term::Integer(7)),
        Ok(GenericUntaggedEnum::Foo(7))
    ));
    assert!(matches!(
        GenericUntaggedEnum::<GenericMap<i32, i32>, &str>::decode(&atom("false")),
        Ok(GenericUntaggedEnum::Bool(false))
    ));
    assert!(matches!(
        GenericUntaggedEnum::<GenericMap<i32, i32>, &str>::decode(&atom("nil")),
        Err(Error::ExpectedEnum)
    ));
    let value: GenericUntaggedEnum<GenericMap<i32, i32>, &str> =
        generic_untagged_enum_echo(GenericUntaggedEnum::Baz("y"));
    assert!(matches!(value.encode(), Term::Binary(b) if b == b"y"));
    let early: GenericUntaggedEnum<i64, i64> = GenericUntaggedEnum::Bar(5);
    assert!(matches!(
        GenericUntaggedEnum::<i64, i64>::decode(&early.encode()),
        Ok(GenericUntaggedEnum::Foo(5))
    ));
}

#[test]
fn generic_exception_round_trip() {
    let value = generic_exception_echo(GenericException { message: "m".to_string(), t: 5i32 });
    let term = value.encode();
    assert!(matches!(&term, Term::Mapping(p) if p.len() == 4));
    let back = GenericException::<i32>::decode(&term).unwrap();
    assert_eq!((back.message.as_str(), back.t), ("m", 5));
    assert!(GenericException::<&str>::decode(&term).is_none());
    assert!(GenericException::<i32>::decode(&AddStruct { lhs: 1, rhs: 2 }.encode()).is_none());
}

#[test]
fn keyword_shapes_round_trip() {
    let s = Struct { override_: 1 }.encode();
    let m = KeywordMap { override_: 2 }.encode();
    let t = Tuple { override_: 3 }.encode();
    let r = Record { override_: 4 }.encode();
    assert!(matches!(Struct::decode(&s), Ok(Struct { override_: 1 })));
    assert!(matches!(Struct::decode(&m), Err(Error::ExpectedStruct)));
    assert!(matches!(KeywordMap::decode(&m), Ok(KeywordMap { override_: 2 })));
    assert!(matches!(KeywordMap::decode(&t), Err(Error::InvalidMap)));
    assert!(matches!(Tuple::decode(&t), Ok(Tuple { override_: 3 })));
    assert!(matches!(Tuple::decode(&r), Err(Error::InvalidTuple)));
    assert!(matches!(Record::decode(&r), Ok(Record { override_: 4 })));
    assert!(matches!(Record::decode(&t), Err(Error::InvalidTuple)));
    assert!(matches!(
        ReservedKeywords::decode(&s),
        Ok(ReservedKeywords::Struct(Struct { override_: 1 }))
    ));
    assert!(matches!(
        ReservedKeywords::decode(&m),
        Ok(ReservedKeywords::Mapping(KeywordMap { override_: 2 }))
    ));
    assert!(matches!(
        ReservedKeywords::decode(&t),
        Ok(ReservedKeywords::Tuple(Tuple { override_: 3 }))
    ));
    assert!(matches!(
        ReservedKeywords::decode(&r),
        Ok(ReservedKeywords::Record(Record { override_: 4 }))
    ));
    assert!(matches!(ReservedKeywords::decode(&atom("a")), Err(Error::ExpectedEnum)));
    let value = ReservedKeywords::Mapping(KeywordMap { override_: 9 });
    assert!(matches!(
        ReservedKeywords::decode(&value.encode()),
        Ok(ReservedKeywords::Mapping(KeywordMap { override_: 9 }))
    ));
}

#[test]
fn keyword_shapes_echo() {
    let value = reserved_keywords_type_echo(ReservedKeywords::Tuple(Tuple { override_: 3 }));
    assert!(matches!(value, ReservedKeywords::Tuple(Tuple { override_: 3 })));
}
