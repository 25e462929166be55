//! Sample shapes whose field is named after a keyword of the language.
use vstd::prelude::*;
use vstd::string::*;
use crate::atoms::atom_bytes;
use crate::codec::{
    atom_term, check_module, element, encode_struct, i32_of, lemma_atoms_differ, map_get,
    map_get_spec, read_i32, value_at,
};
use crate::codegen::{check_record, is_record_of, is_tuple_of, record_fields};
use crate::error::Error;
use crate::term::{is_atom_named, Term};
use crate::util::{validate_tuple, validate_tuple_spec};

verus! {

/// A map with the field `override`.
#[derive(Debug)]
pub struct KeywordMap {
    pub override_: i32,
}

/// A struct named `Struct` with the field `override`.
#[derive(Debug)]
pub struct Struct {
    pub override_: i32,
}

/// A tuple with the field `override`.
#[derive(Debug)]
pub struct Tuple {
    pub override_: i32,
}

/// A record with the tag `record` and the field `override`.
#[derive(Debug)]
pub struct Record {
    pub override_: i32,
}

/// The atoms of the struct tag and of the field differ.
pub proof fn lemma_keyword_names_differ()
    ensures
        atom_bytes("__struct__") != atom_bytes("override"),
{
    reveal_strlit("__struct__");
    reveal_strlit("override");
    assert("__struct__"@.len() != "override"@.len());
    lemma_atoms_differ("__struct__", "override");
}

impl KeywordMap {
    /// What [`KeywordMap::decode`] returns on `t`.
    pub open spec fn decode_spec(t: Term) -> Result<KeywordMap, Error> {
        match i32_of(map_get_spec(t, atom_bytes("override"))) {
            Some(n) => Ok(KeywordMap { override_: n }),
            None => Err(Error::InvalidMap),
        }
    }

    /// Decodes a map that holds the field `override`.
    pub fn decode(term: &Term) -> (r: Result<KeywordMap, Error>)
        ensures
            r == Self::decode_spec(*term),
    {
        match read_i32(map_get(term, "override")) {
            Some(n) => Ok(KeywordMap { override_: n }),
            None => Err(Error::InvalidMap),
        }
    }

    /// Encodes the value as a map of its one field.
    pub fn encode(&self) -> (r: Term)
        ensures
            r matches Term::Mapping(p) && p@.len() == 1 && is_atom_named(
                p@[0].0,
                atom_bytes("override"),
            ) && p@[0].1 == Term::Integer(self.override_ as i128),
            Self::decode_spec(r) == Ok::<KeywordMap, Error>(*self),
    {
        let mut pairs: Vec<(Term, Term)> = Vec::new();
        pairs.push((atom_term("override"), Term::Integer(self.override_ as i128)));
        Term::Mapping(pairs)
    }
}

impl Struct {
    /// What [`Struct::decode`] returns on `t`.
    pub open spec fn decode_spec(t: Term) -> Result<Struct, Error> {
        match map_get_spec(t, atom_bytes("__struct__")) {
            Some(tag) => if is_atom_named(tag, atom_bytes("Elixir.Struct")) {
                match i32_of(map_get_spec(t, atom_bytes("override"))) {
                    Some(n) => Ok(Struct { override_: n }),
                    None => Err(Error::InvalidStructKey),
                }
            } else {
                Err(Error::InvalidStruct)
            },
            None => Err(Error::ExpectedStruct),
        }
    }

    /// Decodes a struct of the module `Elixir.Struct`.
    pub fn decode(term: &Term) -> (r: Result<Struct, Error>)
        ensures
            r == Self::decode_spec(*term),
    {
        check_module(term, "Elixir.Struct")?;
        match read_i32(map_get(term, "override")) {
            Some(n) => Ok(Struct { override_: n }),
            None => Err(Error::InvalidStructKey),
        }
    }

    /// Encodes the value as a struct of the module `Elixir.Struct`.
    pub fn encode(&self) -> (r: Term)
        ensures
            Self::decode_spec(r) == Ok::<Struct, Error>(*self),
    {
        let mut pairs: Vec<(Term, Term)> = Vec::new();
        pairs.push((atom_term("override"), Term::Integer(self.override_ as i128)));
        let ghost fields = pairs@;
        let r = encode_struct("Elixir.Struct", false, pairs);
        proof {
            lemma_keyword_names_differ();
            let p = crate::de::pairs_of(r);
            assert(p[1] == fields[0]);
            assert(value_at(p, atom_bytes("override"), 1) == Some(p[1].1));
        }
        r
    }
}

impl Tuple {
    /// What [`Tuple::decode`] returns on `t`.
    pub open spec fn decode_spec(t: Term) -> Result<Tuple, Error> {
        match validate_tuple_spec(t, Some(1)) {
            Ok(s) => match i32_of(Some(s[0])) {
                Some(n) => Ok(Tuple { override_: n }),
                None => Err(Error::InvalidTuple),
            },
            Err(e) => Err(e),
        }
    }

    /// Decodes a tuple of one number.
    pub fn decode(term: &Term) -> (r: Result<Tuple, Error>)
        ensures
            r == Self::decode_spec(*term),
    {
        let tuple = validate_tuple(term, Some(1))?;
        match read_i32(element(tuple, 0)) {
            Some(n) => Ok(Tuple { override_: n }),
            None => Err(Error::InvalidTuple),
        }
    }

    /// Encodes the value as a tuple of its number.
    pub fn encode(&self) -> (r: Term)
        ensures
            is_tuple_of(r, seq![Term::Integer(self.override_ as i128)]),
            Self::decode_spec(r) == Ok::<Tuple, Error>(*self),
    {
        let mut items: Vec<Term> = Vec::new();
        items.push(Term::Integer(self.override_ as i128));
        assert(items@ =~= seq![Term::Integer(self.override_ as i128)]);
        Term::Tuple(items)
    }
}

impl Record {
    /// What [`Record::decode`] returns on `t`.
    pub open spec fn decode_spec(t: Term) -> Result<Record, Error> {
        match record_fields(t, atom_bytes("record"), 1) {
            Ok(s) => match i32_of(Some(s[0])) {
                Some(n) => Ok(Record { override_: n }),
                None => Err(Error::InvalidTuple),
            },
            Err(e) => Err(e),
        }
    }

    /// Decodes a record with the tag `record` and one number.
    pub fn decode(term: &Term) -> (r: Result<Record, Error>)
        ensures
            r == Self::decode_spec(*term),
    {
        let tuple = check_record(term, "record", 1)?;
        match read_i32(element(tuple, 1)) {
            Some(n) => Ok(Record { override_: n }),
            None => Err(Error::InvalidTuple),
        }
    }

    /// Encodes the value as a record with the tag `record`.
    pub fn encode(&self) -> (r: Term)
        ensures
            is_record_of(r, atom_bytes("record"), seq![Term::Integer(self.override_ as i128)]),
            Self::decode_spec(r) == Ok::<Record, Error>(*self),
    {
        let mut items: Vec<Term> = Vec::new();
        items.push(atom_term("record"));
        items.push(Term::Integer(self.override_ as i128));
        assert(items@.drop_first() =~= seq![Term::Integer(self.override_ as i128)]);
        Term::Tuple(items)
    }
}

/// An untagged enum over the four shapes.
pub enum ReservedKeywords {
    Struct(Struct),
    Mapping(KeywordMap),
    Tuple(Tuple),
    Record(Record),
}

impl ReservedKeywords {
    /// Whether decoding `t` gives `v`. The shapes are tried in the order in
    /// which they are declared, and the first that `t` has is taken.
    pub open spec fn decodes_to(t: Term, v: ReservedKeywords) -> bool {
        match v {
            ReservedKeywords::Struct(x) => Struct::decode_spec(t) == Ok::<Struct, Error>(x),
            ReservedKeywords::Mapping(x) => Struct::decode_spec(t) is Err && KeywordMap::decode_spec(
                t,
            ) == Ok::<KeywordMap, Error>(x),
            ReservedKeywords::Tuple(x) => Struct::decode_spec(t) is Err && KeywordMap::decode_spec(
                t,
            ) is Err && Tuple::decode_spec(t) == Ok::<Tuple, Error>(x),
            ReservedKeywords::Record(x) => Struct::decode_spec(t) is Err && KeywordMap::decode_spec(
                t,
            ) is Err && Tuple::decode_spec(t) is Err && Record::decode_spec(t) == Ok::<
                Record,
                Error,
            >(x),
        }
    }

    /// Whether `t` has none of the four shapes.
    pub open spec fn no_variant(t: Term) -> bool {
        Struct::decode_spec(t) is Err && KeywordMap::decode_spec(t) is Err && Tuple::decode_spec(t)
            is Err && Record::decode_spec(t) is Err
    }

    /// Decodes the first shape that the term has; a term of none of them
    /// fails with `ExpectedEnum`.
    pub fn decode(term: &Term) -> (r: Result<ReservedKeywords, Error>)
        ensures
            match r {
                Ok(v) => Self::decodes_to(*term, v),
                Err(e) => e == Error::ExpectedEnum && Self::no_variant(*term),
            },
    {
        if let Ok(x) = Struct::decode(term) {
            return Ok(ReservedKeywords::Struct(x));
        }
        if let Ok(x) = KeywordMap::decode(term) {
            return Ok(ReservedKeywords::Mapping(x));
        }
        if let Ok(x) = Tuple::decode(term) {
            return Ok(ReservedKeywords::Tuple(x));
        }
        if let Ok(x) = Record::decode(term) {
            return Ok(ReservedKeywords::Record(x));
        }
        Err(Error::ExpectedEnum)
    }

    /// Encodes the shape of the variant.
    pub fn encode(&self) -> (r: Term)
        ensures
            Self::decodes_to(r, *self),
    {
        match self {
            ReservedKeywords::Struct(x) => x.encode(),
            ReservedKeywords::Mapping(x) => {
                let r = x.encode();
                proof {
                    lemma_keyword_names_differ();
                    let p = crate::de::pairs_of(r);
                    assert(value_at(p, atom_bytes("__struct__"), 1) is None);
                }
                r
            },
            ReservedKeywords::Tuple(x) => x.encode(),
            ReservedKeywords::Record(x) => x.encode(),
        }
    }
}

/// Hands the value back unchanged.
pub fn reserved_keywords_type_echo(reserved: ReservedKeywords) -> (r: ReservedKeywords)
    ensures
        r == reserved,
{
    reserved
}

} // verus!
