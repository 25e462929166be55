use rustler_serde::access::MapKey;
use rustler_serde::de::{EnumDeserializer, EnumDeserializerType, Visit};
use rustler_serde::error::Error;
use rustler_serde::term::{Term, TermType};

fn atom(name: &str) -> Term {
    Term::Atom(name.as_bytes().to_vec())
}

fn binary(text: &str) -> Term {
    Term::Binary(text.as_bytes().to_vec())
}

fn point() -> Term {
    Term::Mapping(vec![
        (atom("__struct__"), binary("Point")),
        (atom("x"), Term::Integer(1)),
        (atom("y"), Term::Integer(2)),
    ])
}

#[test]
fn atom_ok_decodes_as_the_name_ok() {
    let term = atom("ok");
    match term.deserialize_any() {
        Ok(Visit::Text(s)) => assert_eq!(s, "Ok"),
        _ => panic!("expected a name"),
    }
}

#[test]
fn atom_error_decodes_as_the_name_err() {
    let term = atom("error");
    match term.deserialize_any() {
        Ok(Visit::Text(s)) => assert_eq!(s, "Err"),
        _ => panic!("expected a name"),
    }
}

#[test]
fn other_atoms_decode_as_their_own_name() {
    let term = atom("hello");
    match term.deserialize_any() {
        Ok(Visit::Text(s)) => assert_eq!(s, "hello"),
        _ => panic!("expected a name"),
    }
}

#[test]
fn atom_that_is_no_text_is_invalid() {
    let term = Term::Atom(vec![0xff, 0xfe]);
    assert!(matches!(term.deserialize_any(), Err(Error::InvalidAtom)));
}

#[test]
fn nil_true_and_false_decode_by_shape() {
    assert!(matches!(atom("nil").deserialize_any(), Ok(Visit::Unit)));
    assert!(matches!(atom("true").deserialize_any(), Ok(Visit::Bool(true))));
    assert!(matches!(atom("false").deserialize_any(), Ok(Visit::Bool(false))));
}

#[test]
fn numbers_decode_unsigned_first() {
    assert!(matches!(Term::Integer(0).deserialize_any(), Ok(Visit::U64(0))));
    assert!(matches!(Term::Integer(5).deserialize_any(), Ok(Visit::U64(5))));
    assert!(matches!(
        Term::Integer(u64::MAX as i128).deserialize_any(),
        Ok(Visit::U64(u64::MAX))
    ));
    assert!(matches!(Term::Integer(-1).deserialize_any(), Ok(Visit::I64(-1))));
    assert!(matches!(
        Term::Integer(i64::MIN as i128).deserialize_any(),
        Ok(Visit::I64(i64::MIN))
    ));
    assert!(matches!(
        Term::Integer(u64::MAX as i128 + 1).deserialize_any(),
        Err(Error::ExpectedNumber)
    ));
    assert!(matches!(
        Term::Integer(i64::MIN as i128 - 1).deserialize_any(),
        Err(Error::ExpectedNumber)
    ));
}

#[test]
fn floats_decode_as_doubles() {
    let bits = 1.5f64.to_bits();
    match Term::Float(bits).deserialize_any() {
        Ok(Visit::F64(b)) => assert_eq!(f64::from_bits(b), 1.5),
        _ => panic!("expected a double"),
    }
    match Term::Float(bits).deserialize_f32() {
        Ok(Visit::F32(b)) => assert_eq!(f64::from_bits(b) as f32, 1.5f32),
        _ => panic!("expected a float"),
    }
    assert!(matches!(Term::Integer(1).deserialize_f64(), Err(Error::InvalidNumber)));
    assert!(matches!(atom("a").deserialize_f64(), Err(Error::ExpectedNumber)));
}

#[test]
fn binary_decodes_as_text() {
    let term = binary("héllo");
    match term.deserialize_any() {
        Ok(Visit::Str(s)) => assert_eq!(s, "héllo"),
        _ => panic!("expected text"),
    }
    let bad = Term::Binary(vec![0xc3]);
    assert!(matches!(bad.deserialize_any(), Err(Error::ExpectedStringable)));
    match bad.deserialize_bytes() {
        Ok(Visit::Bytes(b)) => assert_eq!(b, &[0xc3u8][..]),
        _ => panic!("expected bytes"),
    }
    assert!(matches!(atom("a").deserialize_bytes(), Err(Error::ExpectedBinary)));
    assert!(matches!(atom("a").deserialize_str(), Err(Error::ExpectedBinary)));
}

#[test]
fn pids_and_references_need_type_hints() {
    assert!(matches!(Term::Pid(1).deserialize_any(), Err(Error::TypeHintsRequired)));
    assert!(matches!(Term::Ref(1).deserialize_any(), Err(Error::TypeHintsRequired)));
}

#[test]
fn tuple_decodes_as_a_sequence_without_hint() {
    let term = Term::Tuple(vec![Term::Integer(1), atom("a")]);
    match term.deserialize_any() {
        Ok(Visit::Sequence(mut seq)) => {
            assert!(matches!(seq.next_element(), Some(Term::Integer(1))));
            assert!(matches!(seq.next_element(), Some(Term::Atom(_))));
            assert!(seq.next_element().is_none());
        }
        _ => panic!("expected a sequence"),
    }
}

#[test]
fn empty_list_is_a_sequence_that_is_at_its_end() {
    let term = Term::List(vec![]);
    assert_eq!(term.get_type(), TermType::EmptyList);
    match term.deserialize_seq() {
        Ok(Visit::Sequence(mut seq)) => {
            assert_eq!(seq.size_hint(), 0);
            assert!(seq.next_element().is_none());
            assert!(seq.next_element().is_none());
        }
        _ => panic!("expected a sequence"),
    }
}

#[test]
fn sequence_keeps_the_order_of_the_list() {
    let term = Term::List(vec![Term::Integer(3), Term::Integer(1), Term::Integer(2)]);
    assert_eq!(term.get_type(), TermType::List);
    match term.deserialize_seq() {
        Ok(Visit::Sequence(mut seq)) => {
            assert_eq!(seq.size_hint(), 3);
            let all = seq.drain();
            assert_eq!(all.len(), 3);
            assert!(matches!(all[0], Term::Integer(3)));
            assert!(matches!(all[1], Term::Integer(1)));
            assert!(matches!(all[2], Term::Integer(2)));
            assert!(seq.next_element().is_none());
        }
        _ => panic!("expected a sequence"),
    }
    assert!(matches!(atom("a").deserialize_seq(), Err(Error::ExpectedList)));
    assert!(matches!(Term::Tuple(vec![]).deserialize_seq(), Err(Error::ExpectedList)));
}

#[test]
fn fixed_tuple_needs_the_exact_arity() {
    let term = Term::Tuple(vec![Term::Integer(1), Term::Integer(2)]);
    match term.deserialize_tuple(2) {
        Ok(Visit::Sequence(mut seq)) => assert_eq!(seq.drain().len(), 2),
        _ => panic!("expected a sequence"),
    }
    assert!(matches!(term.deserialize_tuple(1), Err(Error::InvalidTuple)));
    assert!(matches!(term.deserialize_tuple(3), Err(Error::InvalidTuple)));
    assert!(matches!(Term::List(vec![]).deserialize_tuple(0), Err(Error::ExpectedTuple)));
}

#[test]
fn newtype_variant_of_a_pair() {
    let term = Term::Tuple(vec![atom("Name"), Term::Integer(5)]);
    match term.deserialize_enum("E", &["Name"]) {
        Ok(Visit::Variant(de)) => {
            assert_eq!(de.variant_type(), EnumDeserializerType::Newtype);
            assert_eq!(de.variant(), "Name");
            let (name, de) = de.variant_seed().unwrap();
            assert_eq!(name, "Name");
            let payload = de.newtype_variant_seed().unwrap();
            assert!(matches!(payload.deserialize_any(), Ok(Visit::U64(5))));
        }
        _ => panic!("expected a variant"),
    }
    assert!(matches!(
        term.deserialize_enum("E", &["Other"]),
        Err(Error::InvalidVariantName)
    ));
}

#[test]
fn short_tuples_are_no_variants() {
    assert!(matches!(
        Term::Tuple(vec![]).deserialize_enum("E", &["A"]),
        Err(Error::ExpectedEnum)
    ));
    assert!(matches!(
        Term::Tuple(vec![atom("A")]).deserialize_enum("E", &["A"]),
        Err(Error::ExpectedEnum)
    ));
    assert!(matches!(
        Term::List(vec![atom("A")]).deserialize_enum("E", &["A"]),
        Err(Error::ExpectedEnum)
    ));
    assert!(matches!(
        Term::Mapping(vec![(atom("a"), atom("A"))]).deserialize_enum("E", &["A"]),
        Err(Error::ExpectedEnum)
    ));
    assert!(matches!(Term::Pid(0).deserialize_enum("E", &["A"]), Err(Error::ExpectedEnum)));
}

#[test]
fn unit_variants_are_named_by_themselves() {
    for term in [atom("A"), binary("A")] {
        match term.deserialize_enum("E", &["B", "A"]) {
            Ok(Visit::Variant(de)) => {
                assert_eq!(de.variant_type(), EnumDeserializerType::Unit);
                assert_eq!(de.variant(), "A");
                assert!(de.unit_variant().is_ok());
            }
            _ => panic!("expected a variant"),
        }
    }
    match Term::Integer(-12).deserialize_enum("E", &["-12"]) {
        Ok(Visit::Variant(de)) => {
            assert_eq!(de.variant(), "-12");
            assert!(matches!(
                de.newtype_variant_seed(),
                Err(Error::ExpectedNewtypeVariant)
            ));
        }
        _ => panic!("expected a variant"),
    }
    assert!(matches!(
        Term::Float(0).deserialize_enum("E", &["0"]),
        Err(Error::InvalidVariantName)
    ));
}

#[test]
fn tuple_variant_hands_out_the_payload() {
    let term = Term::Tuple(vec![atom("T"), Term::Integer(1), Term::Integer(2)]);
    match term.deserialize_enum("E", &["T"]) {
        Ok(Visit::Variant(de)) => {
            assert_eq!(de.variant_type(), EnumDeserializerType::Tuple);
            let mut seq = de.tuple_variant(2).unwrap();
            let all = seq.drain();
            assert_eq!(all.len(), 2);
            assert!(matches!(all[0], Term::Integer(1)));
            assert!(matches!(all[1], Term::Integer(2)));
        }
        _ => panic!("expected a variant"),
    }
    let de = EnumDeserializer::new(EnumDeserializerType::Tuple, &term, &[], Some(&term));
    assert!(matches!(de, Err(Error::InvalidVariantName)));
    let name = atom("T");
    let de = EnumDeserializer::new(EnumDeserializerType::Tuple, &name, &["T"], Some(&term)).unwrap();
    assert!(matches!(de.tuple_variant(3), Err(Error::InvalidTuple)));
    let de = EnumDeserializer::new(EnumDeserializerType::Tuple, &name, &["T"], Some(&term)).unwrap();
    assert!(matches!(de.tuple_variant(usize::MAX), Err(Error::InvalidTuple)));
    let de = EnumDeserializer::new(EnumDeserializerType::Tuple, &name, &["T"], Some(&term)).unwrap();
    assert!(matches!(de.unit_variant(), Err(Error::ExpectedUnitVariant)));
    let de = EnumDeserializer::new(EnumDeserializerType::Tuple, &name, &["T"], Some(&term)).unwrap();
    assert!(matches!(de.struct_variant(&[]), Err(Error::ExpectedStructVariant)));
    let de = EnumDeserializer::new(EnumDeserializerType::Tuple, &name, &["T"], None).unwrap();
    assert!(matches!(de.tuple_variant(2), Err(Error::ExpectedTupleVariant)));
    let de = EnumDeserializer::new(EnumDeserializerType::Unit, &name, &["T"], None).unwrap();
    assert!(matches!(de.tuple_variant(2), Err(Error::ExpectedTupleVariant)));
}

#[test]
fn any_kind_accepts_every_name() {
    let name = atom("whatever");
    let pair = Term::Tuple(vec![atom("whatever"), Term::Integer(9)]);
    let de = EnumDeserializer::new(EnumDeserializerType::Any, &name, &[], Some(&pair)).unwrap();
    assert!(matches!(de.newtype_variant_seed(), Ok(Term::Integer(9))));
    let de = EnumDeserializer::new(EnumDeserializerType::Any, &name, &[], Some(&pair)).unwrap();
    assert!(de.unit_variant().is_ok());
    let de = EnumDeserializer::new(EnumDeserializerType::Any, &name, &[], None).unwrap();
    assert!(matches!(de.newtype_variant_seed(), Err(Error::ExpectedNewtypeVariant)));
    let list = Term::List(vec![]);
    assert!(matches!(
        EnumDeserializer::new(EnumDeserializerType::Any, &list, &[], None),
        Err(Error::InvalidVariantName)
    ));
}

#[test]
fn named_struct_walks_its_fields() {
    let term = point();
    match term.deserialize_struct("Point", &["x", "y"]) {
        Ok(Visit::Mapping(mut map)) => {
            assert!(!map.has_pending_value());
            match map.next_key() {
                Ok(Some(MapKey::Name(k))) => assert_eq!(k, "x"),
                _ => panic!("expected the field x"),
            }
            assert!(map.has_pending_value());
            assert!(matches!(map.next_value(), Ok(Term::Integer(1))));
            match map.next_key() {
                Ok(Some(MapKey::Name(k))) => assert_eq!(k, "y"),
                _ => panic!("expected the field y"),
            }
            assert!(matches!(map.next_value(), Ok(Term::Integer(2))));
            assert!(matches!(map.next_key(), Ok(None)));
            assert!(matches!(map.next_key(), Ok(None)));
        }
        _ => panic!("expected a map"),
    }
    assert!(matches!(
        term.deserialize_struct("Other", &["x", "y"]),
        Err(Error::InvalidStructName)
    ));
    assert!(matches!(
        Term::Mapping(vec![]).deserialize_struct("Point", &[]),
        Err(Error::ExpectedStruct)
    ));
    assert!(matches!(atom("a").deserialize_struct("Point", &[]), Err(Error::ExpectedMap)));
}

#[test]
fn value_without_key_is_refused() {
    let term = point();
    match term.deserialize_map() {
        Ok(Visit::Mapping(mut map)) => {
            assert!(matches!(map.next_value(), Err(Error::ExpectedStructValue)));
            assert!(matches!(map.next_key(), Ok(Some(MapKey::Raw(Term::Atom(_))))));
            assert!(matches!(map.next_value(), Ok(Term::Integer(1))));
            assert!(matches!(map.next_value(), Err(Error::ExpectedStructValue)));
        }
        _ => panic!("expected a map"),
    }
    assert!(matches!(Term::List(vec![]).deserialize_map(), Err(Error::ExpectedMap)));
}

#[test]
fn tag_is_passed_over_only_where_it_comes_up() {
    let term = Term::Mapping(vec![
        (atom("a"), Term::Integer(1)),
        (atom("__struct__"), binary("S")),
        (atom("__struct__"), binary("T")),
        (atom("__struct__"), binary("U")),
    ]);
    match term.deserialize_any() {
        Ok(Visit::Mapping(mut map)) => {
            match map.next_key() {
                Ok(Some(MapKey::Name(k))) => assert_eq!(k, "a"),
                _ => panic!("expected the field a"),
            }
            assert!(matches!(map.next_value(), Ok(Term::Integer(1))));
            match map.next_key() {
                Ok(Some(MapKey::Name(k))) => assert_eq!(k, "__struct__"),
                _ => panic!("expected the second tag pair"),
            }
            match map.next_value() {
                Ok(Term::Binary(b)) => assert_eq!(b, b"T"),
                _ => panic!("expected the second tag"),
            }
            assert!(matches!(map.next_key(), Ok(None)));
        }
        _ => panic!("expected a map"),
    }
}

#[test]
fn key_that_is_no_name_fails_inside_a_struct() {
    let term = Term::Mapping(vec![
        (atom("__struct__"), atom("S")),
        (Term::List(vec![]), Term::Integer(1)),
    ]);
    match term.deserialize_struct("S", &[]) {
        Ok(Visit::Mapping(mut map)) => {
            assert!(matches!(map.next_key(), Err(Error::ExpectedStringable)));
            assert!(map.has_pending_value());
        }
        _ => panic!("expected a map"),
    }
}

#[test]
fn struct_variant_walks_the_tagged_map() {
    let term = point();
    match term.deserialize_enum("E", &["Point"]) {
        Ok(Visit::Variant(de)) => {
            assert_eq!(de.variant_type(), EnumDeserializerType::Struct);
            let mut map = de.struct_variant(&["x", "y"]).unwrap();
            match map.next_key() {
                Ok(Some(MapKey::Name(k))) => assert_eq!(k, "x"),
                _ => panic!("expected the field x"),
            }
        }
        _ => panic!("expected a variant"),
    }
    let name = binary("Other");
    let de = EnumDeserializer::new(EnumDeserializerType::Struct, &name, &["Other"], Some(&term))
        .unwrap();
    assert!(matches!(de.struct_variant(&[]), Err(Error::InvalidStructName)));
    let de = EnumDeserializer::new(EnumDeserializerType::Struct, &name, &["Other"], None).unwrap();
    assert!(matches!(de.struct_variant(&[]), Err(Error::ExpectedStructVariant)));
}

#[test]
fn named_tuples_check_their_name() {
    let term = Term::Tuple(vec![atom("P"), Term::Integer(1), Term::Integer(2)]);
    match term.deserialize_tuple_struct("P", 2) {
        Ok(Visit::Sequence(mut seq)) => {
            let all = seq.drain();
            assert_eq!(all.len(), 2);
            assert!(matches!(all[0], Term::Integer(1)));
        }
        _ => panic!("expected a sequence"),
    }
    assert!(matches!(term.deserialize_tuple_struct("Q", 2), Err(Error::InvalidStructName)));
    assert!(matches!(term.deserialize_tuple_struct("P", 3), Err(Error::InvalidTuple)));
    assert!(matches!(
        term.deserialize_tuple_struct("P", usize::MAX),
        Err(Error::InvalidTuple)
    ));
    assert!(matches!(atom("P").deserialize_tuple_struct("P", 0), Err(Error::ExpectedTuple)));
    let pair = Term::Tuple(vec![atom("ok"), Term::Integer(7)]);
    assert!(matches!(
        pair.deserialize_newtype_struct("Ok"),
        Ok(Visit::Newtype(Term::Integer(7)))
    ));
    assert!(matches!(
        pair.deserialize_newtype_struct("ok"),
        Err(Error::InvalidStructName)
    ));
    assert!(matches!(term.deserialize_newtype_struct("P"), Err(Error::InvalidTuple)));
}

#[test]
fn characters_are_lists_of_one_code_point() {
    assert!(matches!(
        Term::List(vec![Term::Integer(0x41)]).deserialize_char(),
        Ok(Visit::Char('A'))
    ));
    assert!(matches!(
        Term::List(vec![Term::Integer(0x1F600)]).deserialize_char(),
        Ok(Visit::Char('\u{1F600}'))
    ));
    assert!(matches!(
        Term::List(vec![Term::Integer(0xD800)]).deserialize_char(),
        Err(Error::ExpectedChar)
    ));
    assert!(matches!(
        Term::List(vec![Term::Integer(0x110000)]).deserialize_char(),
        Err(Error::ExpectedChar)
    ));
    assert!(matches!(
        Term::List(vec![Term::Integer(-1)]).deserialize_char(),
        Err(Error::ExpectedChar)
    ));
    assert!(matches!(Term::List(vec![]).deserialize_char(), Err(Error::ExpectedChar)));
    assert!(matches!(
        Term::List(vec![Term::Integer(1), Term::Integer(2)]).deserialize_char(),
        Err(Error::ExpectedChar)
    ));
    assert!(matches!(Term::Integer(0x41).deserialize_char(), Err(Error::ExpectedChar)));
}

#[test]
fn integers_of_each_width_check_their_range() {
    assert!(matches!(Term::Integer(-128).deserialize_i8(), Ok(Visit::I8(-128))));
    assert!(matches!(Term::Integer(128).deserialize_i8(), Err(Error::InvalidNumber)));
    assert!(matches!(Term::Integer(-32768).deserialize_i16(), Ok(Visit::I16(-32768))));
    assert!(matches!(Term::Integer(32768).deserialize_i16(), Err(Error::InvalidNumber)));
    assert!(matches!(Term::Integer(2147483647).deserialize_i32(), Ok(Visit::I32(2147483647))));
    assert!(matches!(Term::Integer(2147483648).deserialize_i32(), Err(Error::InvalidNumber)));
    assert!(matches!(
        Term::Integer(i64::MAX as i128).deserialize_i64(),
        Ok(Visit::I64(i64::MAX))
    ));
    assert!(matches!(
        Term::Integer(i64::MAX as i128 + 1).deserialize_i64(),
        Err(Error::InvalidNumber)
    ));
    assert!(matches!(Term::Integer(255).deserialize_u8(), Ok(Visit::U8(255))));
    assert!(matches!(Term::Integer(256).deserialize_u8(), Err(Error::InvalidNumber)));
    assert!(matches!(Term::Integer(-1).deserialize_u8(), Err(Error::InvalidNumber)));
    assert!(matches!(Term::Integer(65535).deserialize_u16(), Ok(Visit::U16(65535))));
    assert!(matches!(Term::Integer(65536).deserialize_u16(), Err(Error::InvalidNumber)));
    assert!(matches!(Term::Integer(4294967295).deserialize_u32(), Ok(Visit::U32(4294967295))));
    assert!(matches!(Term::Integer(4294967296).deserialize_u32(), Err(Error::InvalidNumber)));
    assert!(matches!(
        Term::Integer(u64::MAX as i128).deserialize_u64(),
        Ok(Visit::U64(u64::MAX))
    ));
    assert!(matches!(Term::Integer(-1).deserialize_u64(), Err(Error::InvalidNumber)));
    assert!(matches!(Term::Float(0).deserialize_u64(), Err(Error::InvalidNumber)));
    assert!(matches!(atom("a").deserialize_u64(), Err(Error::ExpectedNumber)));
}

#[test]
fn units_options_and_booleans() {
    assert!(matches!(atom("nil").deserialize_unit(), Ok(Visit::Unit)));
    assert!(matches!(atom("null").deserialize_unit(), Err(Error::ExpectedNil)));
    assert!(matches!(atom("nil").deserialize_unit_struct("U"), Ok(Visit::Unit)));
    assert!(matches!(atom("nil").deserialize_option(), Ok(Visit::Absent)));
    assert!(matches!(
        Term::Integer(1).deserialize_option(),
        Ok(Visit::Present(Term::Integer(1)))
    ));
    assert!(matches!(atom("true").deserialize_bool(), Ok(Visit::Bool(true))));
    assert!(matches!(atom("yes").deserialize_bool(), Err(Error::ExpectedBoolean)));
    assert!(matches!(Term::Pid(3).deserialize_ignored_any(), Ok(Visit::Unit)));
}

#[test]
fn identifiers() {
    match binary("id").deserialize_identifier() {
        Ok(Visit::Str(s)) => assert_eq!(s, "id"),
        _ => panic!("expected text"),
    }
    assert!(matches!(atom("id").deserialize_identifier(), Err(Error::ExpectedBinary)));
    assert!(matches!(Term::Integer(4).deserialize_identifier(), Ok(Visit::I64(4))));
    assert!(matches!(Term::List(vec![]).deserialize_identifier(), Err(Error::ExpectedAtom)));
    match binary("id").deserialize_string() {
        Ok(Visit::Str(s)) => assert_eq!(s, "id"),
        _ => panic!("expected text"),
    }
    match binary("id").deserialize_byte_buf() {
        Ok(Visit::Bytes(b)) => assert_eq!(b, b"id"),
        _ => panic!("expected bytes"),
    }
}
