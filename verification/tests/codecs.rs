use rustler_serde::codec::{atom_term, check_module, element, encode_struct, map_get, read_i32, read_i64};
use rustler_serde::codegen::{
    check_record, map_echo, newtype_echo, newtype_record_echo, record_echo, struct_echo,
    tuplestruct_echo, tuplestruct_record_echo, AddMap, AddRecord, AddStruct, AddTuple, Newtype,
    NewtypeRecord, TupleStruct, TupleStructRecord, UnitEnum,
};
use rustler_serde::error::Error;
use rustler_serde::term::Term;

fn atom(name: &str) -> Term {
    Term::Atom(name.as_bytes().to_vec())
}

fn is_atom(term: &Term, name: &str) -> bool {
    matches!(term, Term::Atom(b) if b == name.as_bytes())
}

#[test]
fn atoms_by_name() {
    assert!(is_atom(&atom_term("héllo"), "héllo"));
    assert!(is_atom(&atom_term(""), ""));
}

#[test]
fn map_lookup_finds_the_first_pair() {
    let map = Term::Mapping(vec![
        (Term::Binary(b"a".to_vec()), Term::Integer(0)),
        (atom("a"), Term::Integer(1)),
        (atom("a"), Term::Integer(2)),
    ]);
    assert!(matches!(map_get(&map, "a"), Some(Term::Integer(1))));
    assert!(map_get(&map, "b").is_none());
    assert!(map_get(&Term::List(vec![]), "a").is_none());
    assert_eq!(read_i32(map_get(&map, "a")), Some(1));
    assert_eq!(read_i32(None), None);
    assert_eq!(read_i32(Some(&Term::Integer(1 << 31))), None);
    assert_eq!(read_i64(Some(&Term::Integer(1 << 31))), Some(1 << 31));
    assert_eq!(read_i64(Some(&Term::Integer(1 << 63))), None);
    let items = vec![Term::Integer(4)];
    assert!(matches!(element(&items, 0), Some(Term::Integer(4))));
    assert!(element(&items, 1).is_none());
}

#[test]
fn struct_maps_start_with_the_tag() {
    let term = encode_struct("Elixir.M", true, vec![(atom("x"), Term::Integer(1))]);
    match &term {
        Term::Mapping(p) => {
            assert_eq!(p.len(), 3);
            assert!(is_atom(&p[0].0, "__struct__"));
            assert!(is_atom(&p[0].1, "Elixir.M"));
            assert!(is_atom(&p[1].0, "__exception__"));
            assert!(is_atom(&p[1].1, "true"));
            assert!(is_atom(&p[2].0, "x"));
            assert!(matches!(p[2].1, Term::Integer(1)));
        }
        _ => panic!("expected a map"),
    }
    assert!(check_module(&term, "Elixir.M").is_ok());
    assert!(matches!(check_module(&term, "Elixir.N"), Err(Error::InvalidStruct)));
    assert!(matches!(
        check_module(&Term::Mapping(vec![]), "Elixir.M"),
        Err(Error::ExpectedStruct)
    ));
    let plain = encode_struct("Elixir.M", false, vec![]);
    assert!(matches!(&plain, Term::Mapping(p) if p.len() == 1));
}

#[test]
fn add_tuple_round_trip() {
    let term = tuple_of(&[3, -4]);
    let value = AddTuple::decode(&term).unwrap();
    assert_eq!((value.lhs, value.rhs), (3, -4));
    let back = AddTuple::decode(&value.encode()).unwrap();
    assert_eq!((back.lhs, back.rhs), (3, -4));
    assert!(matches!(AddTuple::decode(&tuple_of(&[3])), Err(Error::InvalidTuple)));
    assert!(matches!(AddTuple::decode(&tuple_of(&[3, 1 << 31])), Err(Error::InvalidTuple)));
    assert!(matches!(AddTuple::decode(&atom("a")), Err(Error::ExpectedTuple)));
}

fn tuple_of(numbers: &[i128]) -> Term {
    Term::Tuple(numbers.iter().map(|n| Term::Integer(*n)).collect())
}

fn record_of(tag: &str, numbers: &[i128]) -> Term {
    let mut items = vec![atom(tag)];
    items.extend(numbers.iter().map(|n| Term::Integer(*n)));
    Term::Tuple(items)
}

#[test]
fn add_record_round_trip() {
    let value = record_echo(AddRecord::decode(&record_of("record", &[1, 2])).unwrap());
    assert_eq!((value.lhs, value.rhs), (1, 2));
    match value.encode() {
        Term::Tuple(items) => {
            assert_eq!(items.len(), 3);
            assert!(is_atom(&items[0], "record"));
            assert!(matches!(items[1], Term::Integer(1)));
            assert!(matches!(items[2], Term::Integer(2)));
        }
        _ => panic!("expected a tuple"),
    }
    assert!(matches!(
        AddRecord::decode(&record_of("other", &[1, 2])),
        Err(Error::InvalidStructName)
    ));
    assert!(matches!(
        AddRecord::decode(&record_of("record", &[1])),
        Err(Error::InvalidTuple)
    ));
    assert!(check_record(&record_of("record", &[1]), "record", 1).is_ok());
    assert!(matches!(
        check_record(&atom("record"), "record", 0),
        Err(Error::ExpectedTuple)
    ));
}

#[test]
fn add_map_round_trip() {
    let value = map_echo(AddMap { lhs: 7, rhs: 8 });
    let term = value.encode();
    assert!(matches!(&term, Term::Mapping(p) if p.len() == 2));
    let back = AddMap::decode(&term).unwrap();
    assert_eq!((back.lhs, back.rhs), (7, 8));
    let missing = Term::Mapping(vec![(atom("lhs"), Term::Integer(7))]);
    assert!(matches!(AddMap::decode(&missing), Err(Error::InvalidMap)));
    assert!(matches!(AddMap::decode(&atom("a")), Err(Error::InvalidMap)));
}

#[test]
fn add_struct_round_trip() {
    let value = struct_echo(AddStruct { lhs: i32::MIN, rhs: i32::MAX });
    let term = value.encode();
    match &term {
        Term::Mapping(p) => {
            assert_eq!(p.len(), 3);
            assert!(is_atom(&p[0].1, "Elixir.AddStruct"));
        }
        _ => panic!("expected a map"),
    }
    let back = AddStruct::decode(&term).unwrap();
    assert_eq!((back.lhs, back.rhs), (i32::MIN, i32::MAX));
    let other = encode_struct(
        "Elixir.Other",
        false,
        vec![(atom("lhs"), Term::Integer(1)), (atom("rhs"), Term::Integer(2))],
    );
    assert!(matches!(AddStruct::decode(&other), Err(Error::InvalidStruct)));
    let short = encode_struct("Elixir.AddStruct", false, vec![(atom("lhs"), Term::Integer(1))]);
    assert!(matches!(AddStruct::decode(&short), Err(Error::InvalidStructKey)));
    assert!(matches!(
        AddStruct::decode(&AddMap { lhs: 1, rhs: 2 }.encode()),
        Err(Error::ExpectedStruct)
    ));
}

#[test]
fn unit_enum_round_trip() {
    assert!(is_atom(&UnitEnum::FooBar.encode(), "foo_bar"));
    assert!(is_atom(&UnitEnum::Baz.encode(), "baz"));
    assert_eq!(UnitEnum::decode(&atom("foo_bar")).unwrap(), UnitEnum::FooBar);
    assert_eq!(UnitEnum::decode(&atom("baz")).unwrap(), UnitEnum::Baz);
    assert!(matches!(UnitEnum::decode(&atom("FooBar")), Err(Error::InvalidVariantName)));
    assert!(matches!(
        UnitEnum::decode(&Term::Binary(b"baz".to_vec())),
        Err(Error::InvalidVariantName)
    ));
}

#[test]
fn tuples_of_numbers_round_trip() {
    let n = newtype_echo(Newtype::decode(&tuple_of(&[9])).unwrap());
    assert_eq!(n.0, 9);
    assert_eq!(Newtype::decode(&n.encode()).unwrap().0, 9);
    assert!(matches!(Newtype::decode(&tuple_of(&[1 << 63])), Err(Error::InvalidTuple)));
    let t = tuplestruct_echo(TupleStruct::decode(&tuple_of(&[1, 2, 3])).unwrap());
    assert_eq!((t.0, t.1, t.2), (1, 2, 3));
    let t = TupleStruct::decode(&t.encode()).unwrap();
    assert_eq!((t.0, t.1, t.2), (1, 2, 3));
    assert!(matches!(TupleStruct::decode(&tuple_of(&[1, 2])), Err(Error::InvalidTuple)));
    let n = newtype_record_echo(NewtypeRecord::decode(&record_of("newtype", &[5])).unwrap());
    assert_eq!(NewtypeRecord::decode(&n.encode()).unwrap().0, 5);
    assert!(matches!(
        NewtypeRecord::decode(&record_of("record", &[5])),
        Err(Error::InvalidStructName)
    ));
    let t = tuplestruct_record_echo(
        TupleStructRecord::decode(&record_of("tuplestruct", &[i64::MIN as i128, 0, i64::MAX as i128]))
            .unwrap(),
    );
    let t = TupleStructRecord::decode(&t.encode()).unwrap();
    assert_eq!((t.0, t.1, t.2), (i64::MIN, 0, i64::MAX));
}
