//! Sample target shapes, one of each kind, each with the decoder that walks a
//! term through the dispatcher and the accessors and assembles the value.
use vstd::prelude::*;
use vstd::string::*;
use crate::access::{skip_tag_at_head, MapDeserializer, MapKey, SequenceDeserializer};
use crate::de::{
    enum_spec, newtype_struct_spec, newtype_variant_spec, struct_spec, struct_variant_spec,
    tuple_struct_spec, tuple_variant_spec, unit_spec, EnumDeserializerType, EnumModel, Shape, Visit,
};
use crate::error::Error;
use crate::term::Term;
use crate::text::str_eq;
use crate::util::{name_of, parse_integer_spec, parse_u8};

verus! {

/// What reading `t` as a byte gives.
pub open spec fn byte_spec(t: Term) -> Result<u8, Error> {
    match parse_integer_spec(t, 0, u8::MAX as int) {
        Ok(n) => Ok(n as u8),
        Err(e) => Err(e),
    }
}

/// Reads a term as a byte.
pub fn decode_byte(term: &Term) -> (r: Result<u8, Error>)
    ensures
        r == byte_spec(*term),
{
    parse_u8(term)
}

/// What reading the first three terms of `s` as bytes gives: the first error,
/// or the three bytes.
pub open spec fn bytes3_spec(s: Seq<Term>) -> Result<(u8, u8, u8), Error> {
    match byte_spec(s[0]) {
        Ok(a) => match byte_spec(s[1]) {
            Ok(b) => match byte_spec(s[2]) {
                Ok(c) => Ok((a, b, c)),
                Err(e) => Err(e),
            },
            Err(e) => Err(e),
        },
        Err(e) => Err(e),
    }
}

/// What reading the first two terms of `s` as bytes gives.
pub open spec fn bytes2_spec(s: Seq<Term>) -> Result<(u8, u8), Error> {
    match byte_spec(s[0]) {
        Ok(a) => match byte_spec(s[1]) {
            Ok(b) => Ok((a, b)),
            Err(e) => Err(e),
        },
        Err(e) => Err(e),
    }
}

/// Takes the next term of a cursor that is not at its end and reads it as a
/// byte.
fn next_byte<'a>(seq: &mut SequenceDeserializer<'a>) -> (r: Result<u8, Error>)
    requires
        old(seq)@.len() > 0,
    ensures
        r == byte_spec(old(seq)@[0]),
        final(seq)@ == old(seq)@.drop_first(),
{
    match seq.next_element() {
        Some(t) => decode_byte(t),
        None => Err(Error::InvalidSequenceElement),
    }
}

/// The unit struct: the atom `nil`.
#[derive(Debug, PartialEq, Eq, Structural)]
pub struct Unit;

impl Unit {
    /// Decodes the unit struct.
    pub fn decode(term: &Term) -> (r: Result<Unit, Error>)
        ensures
            match r {
                Ok(_) => unit_spec(*term) is Ok,
                Err(e) => unit_spec(*term) == Err::<Shape, Error>(e),
            },
    {
        match term.deserialize_unit_struct("Unit") {
            Ok(_) => Ok(Unit),
            Err(e) => Err(e),
        }
    }
}

/// An enum with one unit variant, named `UnitVariant::A`.
#[derive(Debug, PartialEq, Eq, Structural)]
pub enum UnitVariant {
    A,
}

/// The accessor that decoding `t` as an enum with the one legal name `name`
/// gives.
pub open spec fn variant_of(t: Term, name: Seq<char>) -> Result<EnumModel, Error> {
    match enum_spec(t, seq![name]) {
        Ok(Shape::Variant(m)) => Ok(m),
        Ok(_) => Err(Error::ExpectedEnum),
        Err(e) => Err(e),
    }
}

impl UnitVariant {
    /// What [`UnitVariant::decode`] returns on `t`.
    pub open spec fn decode_spec(t: Term) -> Result<UnitVariant, Error> {
        match variant_of(t, "UnitVariant::A"@) {
            Ok(m) => if m.kind == EnumDeserializerType::Unit {
                Ok(UnitVariant::A)
            } else {
                Err(Error::ExpectedUnitVariant)
            },
            Err(e) => Err(e),
        }
    }

    /// Decodes the enum: a term that names the variant and carries nothing.
    pub fn decode(term: &Term) -> (r: Result<UnitVariant, Error>)
        ensures
            r == Self::decode_spec(*term),
    {
        let variants = ["UnitVariant::A"];
        let names: &[&str] = variants.as_slice();
        assert(crate::de::names_of(names) =~= seq!["UnitVariant::A"@]);
        match term.deserialize_enum("UnitVariant", names)? {
            Visit::Variant(de) => {
                de.unit_variant()?;
                Ok(UnitVariant::A)
            },
            _ => Err(Error::ExpectedEnum),
        }
    }
}

/// An enum with one newtype variant.
#[derive(Debug, PartialEq, Eq, Structural)]
pub enum NewtypeVariant {
    N(u8),
}

impl NewtypeVariant {
    /// What [`NewtypeVariant::decode`] returns on `t`.
    pub open spec fn decode_spec(t: Term) -> Result<NewtypeVariant, Error> {
        match variant_of(t, "Elixir.RustlerTest.SerdeTest.NewtypeVariant.N"@) {
            Ok(m) => match newtype_variant_spec(m) {
                Ok(payload) => match byte_spec(payload) {
                    Ok(n) => Ok(NewtypeVariant::N(n)),
                    Err(e) => Err(e),
                },
                Err(e) => Err(e),
            },
            Err(e) => Err(e),
        }
    }

    /// Decodes the enum: a pair of the name of the variant and a byte.
    pub fn decode(term: &Term) -> (r: Result<NewtypeVariant, Error>)
        ensures
            r == Self::decode_spec(*term),
    {
        let variants = ["Elixir.RustlerTest.SerdeTest.NewtypeVariant.N"];
        let names: &[&str] = variants.as_slice();
        assert(crate::de::names_of(names) =~= seq![
            "Elixir.RustlerTest.SerdeTest.NewtypeVariant.N"@,
        ]);
        match term.deserialize_enum("NewtypeVariant", names)? {
            Visit::Variant(de) => {
                let payload = de.newtype_variant_seed()?;
                Ok(NewtypeVariant::N(decode_byte(payload)?))
            },
            _ => Err(Error::ExpectedEnum),
        }
    }
}

/// A named struct around one byte.
#[derive(Debug, PartialEq, Eq, Structural)]
pub struct NewtypeStruct(pub u8);

impl NewtypeStruct {
    /// What [`NewtypeStruct::decode`] returns on `t`.
    pub open spec fn decode_spec(t: Term) -> Result<NewtypeStruct, Error> {
        match newtype_struct_spec(t, "Elixir.RustlerTest.SerdeTest.NewtypeStruct"@) {
            Ok(Shape::Newtype(payload)) => match byte_spec(payload) {
                Ok(n) => Ok(NewtypeStruct(n)),
                Err(e) => Err(e),
            },
            Ok(_) => Err(Error::ExpectedNewtypeStruct),
            Err(e) => Err(e),
        }
    }

    /// Decodes the struct: a pair of its name and a byte.
    pub fn decode(term: &Term) -> (r: Result<NewtypeStruct, Error>)
        ensures
            r == Self::decode_spec(*term),
    {
        match term.deserialize_newtype_struct("Elixir.RustlerTest.SerdeTest.NewtypeStruct")? {
            Visit::Newtype(payload) => Ok(NewtypeStruct(decode_byte(payload)?)),
            _ => Err(Error::ExpectedNewtypeStruct),
        }
    }
}

/// A named struct of three bytes.
#[derive(Debug, PartialEq, Eq, Structural)]
pub struct TupleStruct(pub u8, pub u8, pub u8);

impl TupleStruct {
    /// What [`TupleStruct::decode`] returns on `t`.
    pub open spec fn decode_spec(t: Term) -> Result<TupleStruct, Error> {
        match tuple_struct_spec(t, "Elixir.RustlerTest.SerdeTest.TupleStruct"@, 3) {
            Ok(Shape::Sequence(s)) => match bytes3_spec(s) {
                Ok((a, b, c)) => Ok(TupleStruct(a, b, c)),
                Err(e) => Err(e),
            },
            Ok(_) => Err(Error::ExpectedTuple),
            Err(e) => Err(e),
        }
    }

    /// Decodes the struct: a tuple of its name and three bytes.
    pub fn decode(term: &Term) -> (r: Result<TupleStruct, Error>)
        ensures
            r == Self::decode_spec(*term),
    {
        match term.deserialize_tuple_struct("Elixir.RustlerTest.SerdeTest.TupleStruct", 3)? {
            Visit::Sequence(mut seq) => {
                let a = next_byte(&mut seq)?;
                let b = next_byte(&mut seq)?;
                let c = next_byte(&mut seq)?;
                Ok(TupleStruct(a, b, c))
            },
            _ => Err(Error::ExpectedTuple),
        }
    }
}

/// An enum with one tuple variant of two bytes.
#[derive(Debug, PartialEq, Eq, Structural)]
pub enum TupleVariant {
    T(u8, u8),
}

impl TupleVariant {
    /// What [`TupleVariant::decode`] returns on `t`.
    pub open spec fn decode_spec(t: Term) -> Result<TupleVariant, Error> {
        match variant_of(t, "Elixir.RustlerTest.SerdeTest.TupleVariant.T"@) {
            Ok(m) => match tuple_variant_spec(m, 2) {
                Ok(s) => match bytes2_spec(s) {
                    Ok((a, b)) => Ok(TupleVariant::T(a, b)),
                    Err(e) => Err(e),
                },
                Err(e) => Err(e),
            },
            Err(e) => Err(e),
        }
    }

    /// Decodes the enum: a tuple of the name of the variant and two bytes.
    pub fn decode(term: &Term) -> (r: Result<TupleVariant, Error>)
        ensures
            r == Self::decode_spec(*term),
    {
        let variants = ["Elixir.RustlerTest.SerdeTest.TupleVariant.T"];
        let names: &[&str] = variants.as_slice();
        assert(crate::de::names_of(names) =~= seq![
            "Elixir.RustlerTest.SerdeTest.TupleVariant.T"@,
        ]);
        match term.deserialize_enum("TupleVariant", names)? {
            Visit::Variant(de) => {
                let mut seq = de.tuple_variant(2)?;
                let a = next_byte(&mut seq)?;
                let b = next_byte(&mut seq)?;
                Ok(TupleVariant::T(a, b))
            },
            _ => Err(Error::ExpectedEnum),
        }
    }
}

/// Three colour fields, of which some may not have been read yet.
pub struct Fields {
    pub r: Option<u8>,
    pub g: Option<u8>,
    pub b: Option<u8>,
}

/// The fields after the pair of `key` and `value` was read: the field that
/// `key` names is set to the byte that `value` holds; a field that is set
/// already is refused with `InvalidStructKey`; any other key is passed over.
pub open spec fn field_step(acc: Fields, key: Seq<char>, value: Term) -> Result<Fields, Error> {
    if key == "r"@ {
        if acc.r is Some {
            Err(Error::InvalidStructKey)
        } else {
            match byte_spec(value) {
                Ok(n) => Ok(Fields { r: Some(n), g: acc.g, b: acc.b }),
                Err(e) => Err(e),
            }
        }
    } else if key == "g"@ {
        if acc.g is Some {
            Err(Error::InvalidStructKey)
        } else {
            match byte_spec(value) {
                Ok(n) => Ok(Fields { r: acc.r, g: Some(n), b: acc.b }),
                Err(e) => Err(e),
            }
        }
    } else if key == "b"@ {
        if acc.b is Some {
            Err(Error::InvalidStructKey)
        } else {
            match byte_spec(value) {
                Ok(n) => Ok(Fields { r: acc.r, g: acc.g, b: Some(n) }),
                Err(e) => Err(e),
            }
        }
    } else {
        Ok(acc)
    }
}

/// The fields after all of `remaining` was walked by a cursor of a tagged
/// container, starting from `acc`.
pub open spec fn walk_fields(remaining: Seq<(Term, Term)>, acc: Fields) -> Result<Fields, Error>
    decreases remaining.len(),
{
    let s = skip_tag_at_head(remaining);
    if s.len() == 0 {
        Ok(acc)
    } else {
        match name_of(s[0].0) {
            Ok(key) => match field_step(acc, key, s[0].1) {
                Ok(next) => walk_fields(s.drop_first(), next),
                Err(e) => Err(e),
            },
            Err(e) => Err(e),
        }
    }
}

/// The three bytes, where every field was read; `InvalidStruct` where one is
/// missing.
pub open spec fn all_fields(acc: Fields) -> Result<(u8, u8, u8), Error> {
    match (acc.r, acc.g, acc.b) {
        (Some(r), Some(g), Some(b)) => Ok((r, g, b)),
        _ => Err(Error::InvalidStruct),
    }
}

/// What [`collect_fields`] returns on a cursor over `remaining`.
pub open spec fn collect_fields_spec(remaining: Seq<(Term, Term)>) -> Result<(u8, u8, u8), Error> {
    match walk_fields(remaining, Fields { r: None, g: None, b: None }) {
        Ok(acc) => all_fields(acc),
        Err(e) => Err(e),
    }
}

fn set_field(slot: Option<u8>, value: &Term) -> (r: Result<Option<u8>, Error>)
    ensures
        slot is Some ==> r == Err::<Option<u8>, Error>(Error::InvalidStructKey),
        slot is None ==> match byte_spec(*value) {
            Ok(n) => r == Ok::<Option<u8>, Error>(Some(n)),
            Err(e) => r == Err::<Option<u8>, Error>(e),
        },
{
    if slot.is_some() {
        return Err(Error::InvalidStructKey);
    }
    Ok(Some(decode_byte(value)?))
}

/// Walks the pairs of a tagged container and reads the fields `r`, `g` and
/// `b`, each a byte. A field that comes twice fails with `InvalidStructKey`,
/// one that does not come with `InvalidStruct`; other fields are passed over.
pub fn collect_fields<'a>(map: &mut MapDeserializer<'a>) -> (r: Result<(u8, u8, u8), Error>)
    requires
        old(map)@.tag is Some,
        old(map)@.pending is None,
    ensures
        r == collect_fields_spec(old(map)@.remaining),
{
    let mut acc = Fields { r: None, g: None, b: None };
    let ghost start = map@.remaining;
    loop
        invariant
            start == old(map)@.remaining,
            map@.tag is Some,
            map@.pending is None,
            walk_fields(start, Fields { r: None, g: None, b: None }) == walk_fields(
                map@.remaining,
                acc,
            ),
        ensures
            walk_fields(start, Fields { r: None, g: None, b: None }) == Ok::<Fields, Error>(acc),
        decreases map@.remaining.len(),
    {
        let ghost before = map@;
        match map.next_key() {
            Err(e) => {
                return Err(e);
            },
            Ok(None) => {
                break ;
            },
            Ok(Some(MapKey::Name(key))) => {
                let value = map.next_value()?;
                assert(map@.remaining == skip_tag_at_head(before.remaining).drop_first());
                if str_eq(key.as_str(), "r") {
                    acc.r = set_field(acc.r, value)?;
                } else if str_eq(key.as_str(), "g") {
                    acc.g = set_field(acc.g, value)?;
                } else if str_eq(key.as_str(), "b") {
                    acc.b = set_field(acc.b, value)?;
                }
            },
            Ok(Some(MapKey::Raw(_))) => {
                return Err(Error::InvalidStructKey);
            },
        }
    }
    match (acc.r, acc.g, acc.b) {
        (Some(r), Some(g), Some(b)) => Ok((r, g, b)),
        _ => Err(Error::InvalidStruct),
    }
}

/// A named struct of three named bytes.
#[derive(Debug, PartialEq, Eq, Structural)]
pub struct Struct {
    pub r: u8,
    pub g: u8,
    pub b: u8,
}

impl Struct {
    /// What [`Struct::decode`] returns on `t`.
    pub open spec fn decode_spec(t: Term) -> Result<Struct, Error> {
        match struct_spec(t, "Elixir.RustlerTest.SerdeTest.Struct"@) {
            Ok(Shape::Mapping(m)) => match collect_fields_spec(m.remaining) {
                Ok((r, g, b)) => Ok(Struct { r, g, b }),
                Err(e) => Err(e),
            },
            Ok(_) => Err(Error::ExpectedStruct),
            Err(e) => Err(e),
        }
    }

    /// Decodes the struct: a map tagged with its name that holds the three
    /// fields.
    pub fn decode(term: &Term) -> (r: Result<Struct, Error>)
        ensures
            r == Self::decode_spec(*term),
    {
        let fields = ["r", "g", "b"];
        match term.deserialize_struct("Elixir.RustlerTest.SerdeTest.Struct", fields.as_slice())? {
            Visit::Mapping(mut map) => {
                let (r, g, b) = collect_fields(&mut map)?;
                Ok(Struct { r, g, b })
            },
            _ => Err(Error::ExpectedStruct),
        }
    }
}

/// An enum with one struct variant of three named bytes.
#[derive(Debug, PartialEq, Eq, Structural)]
pub enum StructVariant {
    S { r: u8, g: u8, b: u8 },
}

impl StructVariant {
    /// What [`StructVariant::decode`] returns on `t`.
    pub open spec fn decode_spec(t: Term) -> Result<StructVariant, Error> {
        match variant_of(t, "Elixir.RustlerTest.SerdeTest.StructVariant.S"@) {
            Ok(m) => match struct_variant_spec(m) {
                Ok(map) => match collect_fields_spec(map.remaining) {
                    Ok((r, g, b)) => Ok(StructVariant::S { r, g, b }),
                    Err(e) => Err(e),
                },
                Err(e) => Err(e),
            },
            Err(e) => Err(e),
        }
    }

    /// Decodes the enum: a map tagged with the name of the variant that holds
    /// the three fields.
    pub fn decode(term: &Term) -> (r: Result<StructVariant, Error>)
        ensures
            r == Self::decode_spec(*term),
    {
        let variants = ["Elixir.RustlerTest.SerdeTest.StructVariant.S"];
        let names: &[&str] = variants.as_slice();
        assert(crate::de::names_of(names) =~= seq![
            "Elixir.RustlerTest.SerdeTest.StructVariant.S"@,
        ]);
        let fields = ["r", "g", "b"];
        match term.deserialize_enum("StructVariant", names)? {
            Visit::Variant(de) => {
                let mut map = de.struct_variant(fields.as_slice())?;
                let (r, g, b) = collect_fields(&mut map)?;
                Ok(StructVariant::S { r, g, b })
            },
            _ => Err(Error::ExpectedEnum),
        }
    }
}

} // verus!
