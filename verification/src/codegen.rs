//! Sample shapes of every kind that a term can be decoded into, each with the
//! function that hands a decoded value back unchanged.
use vstd::prelude::*;
use vstd::string::*;
use crate::atoms::atom_bytes;
use crate::codec::{
    atom_term, check_module, element, encode_struct, i32_of, i64_of, lemma_atoms_differ, map_get,
    map_get_spec, read_i32, read_i64, read_string, struct_pairs, text_of, text_term, value_at,
    TermCodec,
};
use crate::error::Error;
use crate::term::{is_atom_named, Term};
use crate::util::{
    parse_bool, parse_bool_spec, parse_integer_spec, parse_str_spec, parse_u32, validate_tuple,
    validate_tuple_spec,
};

verus! {

/// Whether `t` is a tuple of exactly the terms `items`.
pub open spec fn is_tuple_of(t: Term, items: Seq<Term>) -> bool {
    t matches Term::Tuple(v) && v@ == items
}

/// Whether `t` is a tuple of the atom with the bytes `tag` and then exactly
/// the terms `items`.
pub open spec fn is_record_of(t: Term, tag: Seq<u8>, items: Seq<Term>) -> bool {
    t matches Term::Tuple(v) && v@.len() == items.len() + 1 && is_atom_named(v@[0], tag)
        && v@.drop_first() == items
}

/// What reading the tuple `t` as a record with the tag `tag` and `len` fields
/// gives: the fields. A tuple of another arity fails with `InvalidTuple`, one
/// with another first element with `InvalidStructName`.
pub open spec fn record_fields(t: Term, tag: Seq<u8>, len: int) -> Result<Seq<Term>, Error> {
    match validate_tuple_spec(t, Some(len + 1)) {
        Ok(s) => if is_atom_named(s[0], tag) {
            Ok(s.drop_first())
        } else {
            Err(Error::InvalidStructName)
        },
        Err(e) => Err(e),
    }
}

/// Checks that a term is a record with the given tag and number of fields,
/// and lends its elements, the tag first.
pub fn check_record<'a>(term: &'a Term, tag: &str, len: usize) -> (r: Result<&'a Vec<Term>, Error>)
    ensures
        match r {
            Ok(v) => record_fields(*term, atom_bytes(tag), len as int) == Ok::<Seq<Term>, Error>(
                v@.drop_first(),
            ) && v@.len() == len + 1,
            Err(e) => record_fields(*term, atom_bytes(tag), len as int) == Err::<Seq<Term>, Error>(
                e,
            ),
        },
{
    let tuple = crate::util::validate_tagged_tuple(term, len)?;
    if tuple[0].is_atom_of(tag.as_bytes()) {
        Ok(tuple)
    } else {
        Err(Error::InvalidStructName)
    }
}

/// Two numbers, encoded as a tuple.
pub struct AddTuple {
    pub lhs: i32,
    pub rhs: i32,
}

impl AddTuple {
    /// What [`AddTuple::decode`] returns on `t`.
    pub open spec fn decode_spec(t: Term) -> Result<AddTuple, Error> {
        match validate_tuple_spec(t, Some(2)) {
            Ok(s) => match (i32_of(Some(s[0])), i32_of(Some(s[1]))) {
                (Some(lhs), Some(rhs)) => Ok(AddTuple { lhs, rhs }),
                _ => Err(Error::InvalidTuple),
            },
            Err(e) => Err(e),
        }
    }

    /// Decodes a tuple of two numbers.
    pub fn decode(term: &Term) -> (r: Result<AddTuple, Error>)
        ensures
            r == Self::decode_spec(*term),
    {
        let tuple = validate_tuple(term, Some(2))?;
        match (read_i32(element(tuple, 0)), read_i32(element(tuple, 1))) {
            (Some(lhs), Some(rhs)) => Ok(AddTuple { lhs, rhs }),
            _ => Err(Error::InvalidTuple),
        }
    }

    /// Encodes the value as a tuple of its two numbers.
    pub fn encode(&self) -> (r: Term)
        ensures
            is_tuple_of(r, seq![Term::Integer(self.lhs as i128), Term::Integer(self.rhs as i128)]),
            Self::decode_spec(r) == Ok::<AddTuple, Error>(*self),
    {
        let mut items: Vec<Term> = Vec::new();
        items.push(Term::Integer(self.lhs as i128));
        items.push(Term::Integer(self.rhs as i128));
        assert(items@ =~= seq![Term::Integer(self.lhs as i128), Term::Integer(self.rhs as i128)]);
        Term::Tuple(items)
    }
}

/// Hands the value back unchanged.
pub fn tuple_echo(tuple: AddTuple) -> (r: AddTuple)
    ensures
        r == tuple,
{
    tuple
}

/// Two values of one type, encoded as a tuple.
pub struct GenericTuple<T> {
    pub t1: T,
    pub t2: T,
}

impl<'a, T: TermCodec<'a>> TermCodec<'a> for GenericTuple<T> {
    open spec fn decodes_to(t: Term, v: Self) -> bool {
        t matches Term::Tuple(s) && s@.len() == 2 && T::decodes_to(s@[0], v.t1) && T::decodes_to(
            s@[1],
            v.t2,
        )
    }

    open spec fn decodable(t: Term) -> bool {
        t matches Term::Tuple(s) && s@.len() == 2 && T::decodable(s@[0]) && T::decodable(s@[1])
    }

    /// Reads a tuple of two values.
    fn decode(term: &'a Term) -> (r: Option<Self>) {
        match term {
            Term::Tuple(items) => {
                if items.len() != 2 {
                    return None;
                }
                match (T::decode(&items[0]), T::decode(&items[1])) {
                    (Some(t1), Some(t2)) => Some(GenericTuple { t1, t2 }),
                    _ => None,
                }
            },
            _ => None,
        }
    }

    /// Writes the two values as a tuple.
    fn encode(&self) -> (r: Term) {
        let mut items: Vec<Term> = Vec::new();
        items.push(self.t1.encode());
        items.push(self.t2.encode());
        Term::Tuple(items)
    }
}

/// Hands the value back unchanged.
pub fn generic_tuple_echo_usize(generic_tuple: GenericTuple<usize>) -> (r: GenericTuple<usize>)
    ensures
        r == generic_tuple,
{
    generic_tuple
}

/// Hands the value back unchanged.
pub fn generic_tuple_echo_str<'a>(generic_tuple: GenericTuple<&'a str>) -> (r: GenericTuple<
    &'a str,
>)
    ensures
        r == generic_tuple,
{
    generic_tuple
}

/// Three values of three types, encoded as a tuple.
pub struct GenericTuple2<T, U, V> {
    pub t: T,
    pub u: U,
    pub v: V,
}

impl<'a, T: TermCodec<'a>, U: TermCodec<'a>, V: TermCodec<'a>> TermCodec<'a> for GenericTuple2<
    T,
    U,
    V,
> {
    open spec fn decodes_to(t: Term, v: Self) -> bool {
        t matches Term::Tuple(s) && s@.len() == 3 && T::decodes_to(s@[0], v.t) && U::decodes_to(
            s@[1],
            v.u,
        ) && V::decodes_to(s@[2], v.v)
    }

    open spec fn decodable(t: Term) -> bool {
        t matches Term::Tuple(s) && s@.len() == 3 && T::decodable(s@[0]) && U::decodable(s@[1])
            && V::decodable(s@[2])
    }

    /// Reads a tuple of three values.
    fn decode(term: &'a Term) -> (r: Option<Self>) {
        match term {
            Term::Tuple(items) => {
                if items.len() != 3 {
                    return None;
                }
                match (T::decode(&items[0]), U::decode(&items[1]), V::decode(&items[2])) {
                    (Some(t), Some(u), Some(v)) => Some(GenericTuple2 { t, u, v }),
                    _ => None,
                }
            },
            _ => None,
        }
    }

    /// Writes the three values as a tuple.
    fn encode(&self) -> (r: Term) {
        let mut items: Vec<Term> = Vec::new();
        items.push(self.t.encode());
        items.push(self.u.encode());
        items.push(self.v.encode());
        Term::Tuple(items)
    }
}

/// Hands the value back unchanged.
pub fn generic_tuple2_echo<'a>(generic_tuple: GenericTuple2<usize, i64, &'a str>) -> (r:
    GenericTuple2<usize, i64, &'a str>)
    ensures
        r == generic_tuple,
{
    generic_tuple
}

/// Two numbers, encoded as a record with the tag `record`.
#[must_use]
pub struct AddRecord {
    pub lhs: i32,
    pub rhs: i32,
}

impl AddRecord {
    /// What [`AddRecord::decode`] returns on `t`.
    pub open spec fn decode_spec(t: Term) -> Result<AddRecord, Error> {
        match record_fields(t, atom_bytes("record"), 2) {
            Ok(s) => match (i32_of(Some(s[0])), i32_of(Some(s[1]))) {
                (Some(lhs), Some(rhs)) => Ok(AddRecord { lhs, rhs }),
                _ => Err(Error::InvalidTuple),
            },
            Err(e) => Err(e),
        }
    }

    /// Decodes a record with the tag `record` and two numbers.
    pub fn decode(term: &Term) -> (r: Result<AddRecord, Error>)
        ensures
            r == Self::decode_spec(*term),
    {
        let tuple = check_record(term, "record", 2)?;
        match (read_i32(element(tuple, 1)), read_i32(element(tuple, 2))) {
            (Some(lhs), Some(rhs)) => Ok(AddRecord { lhs, rhs }),
            _ => Err(Error::InvalidTuple),
        }
    }

    /// Encodes the value as a record with the tag `record`.
    pub fn encode(&self) -> (r: Term)
        ensures
            is_record_of(
                r,
                atom_bytes("record"),
                seq![Term::Integer(self.lhs as i128), Term::Integer(self.rhs as i128)],
            ),
            Self::decode_spec(r) == Ok::<AddRecord, Error>(*self),
    {
        let mut items: Vec<Term> = Vec::new();
        items.push(atom_term("record"));
        items.push(Term::Integer(self.lhs as i128));
        items.push(Term::Integer(self.rhs as i128));
        assert(items@.drop_first() =~= seq![
            Term::Integer(self.lhs as i128),
            Term::Integer(self.rhs as i128),
        ]);
        Term::Tuple(items)
    }
}

/// Hands the value back unchanged.
pub fn record_echo(record: AddRecord) -> (r: AddRecord)
    ensures
        r == record,
{
    record
}

/// Two values, encoded as a record with the tag `generic_record`.
pub struct GenericRecord<T, U> {
    pub field1: T,
    pub field2: U,
}

impl<'a, T: TermCodec<'a>, U: TermCodec<'a>> TermCodec<'a> for GenericRecord<T, U> {
    open spec fn decodes_to(t: Term, v: Self) -> bool {
        t matches Term::Tuple(s) && s@.len() == 3 && is_atom_named(
            s@[0],
            atom_bytes("generic_record"),
        ) && T::decodes_to(s@[1], v.field1) && U::decodes_to(s@[2], v.field2)
    }

    open spec fn decodable(t: Term) -> bool {
        t matches Term::Tuple(s) && s@.len() == 3 && is_atom_named(
            s@[0],
            atom_bytes("generic_record"),
        ) && T::decodable(s@[1]) && U::decodable(s@[2])
    }

    /// Reads a record with the tag `generic_record` and two values.
    fn decode(term: &'a Term) -> (r: Option<Self>) {
        match term {
            Term::Tuple(items) => {
                if items.len() != 3 {
                    return None;
                }
                if !items[0].is_atom_of("generic_record".as_bytes()) {
                    return None;
                }
                match (T::decode(&items[1]), U::decode(&items[2])) {
                    (Some(field1), Some(field2)) => Some(GenericRecord { field1, field2 }),
                    _ => None,
                }
            },
            _ => None,
        }
    }

    /// Writes the two values as a record with the tag `generic_record`.
    fn encode(&self) -> (r: Term) {
        let mut items: Vec<Term> = Vec::new();
        items.push(atom_term("generic_record"));
        items.push(self.field1.encode());
        items.push(self.field2.encode());
        Term::Tuple(items)
    }
}

/// Hands the value back unchanged.
pub fn generic_record_echo<'a>(record: GenericRecord<i32, &'a str>) -> (r: GenericRecord<
    i32,
    &'a str,
>)
    ensures
        r == record,
{
    record
}

/// Two numbers, encoded as a map.
pub struct AddMap {
    pub lhs: i32,
    pub rhs: i32,
}

/// Whether `pairs` are the fields `lhs` and `rhs`, in this order, with the
/// numbers `lhs` and `rhs`.
pub open spec fn add_fields(pairs: Seq<(Term, Term)>, lhs: i32, rhs: i32) -> bool {
    &&& pairs.len() == 2
    &&& is_atom_named(pairs[0].0, atom_bytes("lhs"))
    &&& pairs[0].1 == Term::Integer(lhs as i128)
    &&& is_atom_named(pairs[1].0, atom_bytes("rhs"))
    &&& pairs[1].1 == Term::Integer(rhs as i128)
}

/// The pairs of the fields `lhs` and `rhs`.
fn add_pairs(lhs: i32, rhs: i32) -> (r: Vec<(Term, Term)>)
    ensures
        add_fields(r@, lhs, rhs),
{
    let mut pairs: Vec<(Term, Term)> = Vec::new();
    pairs.push((atom_term("lhs"), Term::Integer(lhs as i128)));
    pairs.push((atom_term("rhs"), Term::Integer(rhs as i128)));
    pairs
}

/// The names that the codecs of the sums use are the names of atoms that
/// differ from each other.
pub proof fn lemma_add_names_differ()
    ensures
        atom_bytes("lhs") != atom_bytes("rhs"),
        atom_bytes("__struct__") != atom_bytes("lhs"),
        atom_bytes("__struct__") != atom_bytes("rhs"),
{
    reveal_strlit("lhs");
    reveal_strlit("rhs");
    reveal_strlit("__struct__");
    assert("lhs"@[0] != "rhs"@[0]);
    assert("__struct__"@.len() != "lhs"@.len());
    assert("__struct__"@.len() != "rhs"@.len());
    lemma_atoms_differ("lhs", "rhs");
    lemma_atoms_differ("__struct__", "lhs");
    lemma_atoms_differ("__struct__", "rhs");
}

impl AddMap {
    /// What [`AddMap::decode`] returns on `t`.
    pub open spec fn decode_spec(t: Term) -> Result<AddMap, Error> {
        match (
            i32_of(map_get_spec(t, atom_bytes("lhs"))),
            i32_of(map_get_spec(t, atom_bytes("rhs"))),
        ) {
            (Some(lhs), Some(rhs)) => Ok(AddMap { lhs, rhs }),
            _ => Err(Error::InvalidMap),
        }
    }

    /// Decodes a map that holds the fields `lhs` and `rhs`.
    pub fn decode(term: &Term) -> (r: Result<AddMap, Error>)
        ensures
            r == Self::decode_spec(*term),
    {
        match (read_i32(map_get(term, "lhs")), read_i32(map_get(term, "rhs"))) {
            (Some(lhs), Some(rhs)) => Ok(AddMap { lhs, rhs }),
            _ => Err(Error::InvalidMap),
        }
    }

    /// Encodes the value as a map of its two fields.
    pub fn encode(&self) -> (r: Term)
        ensures
            r matches Term::Mapping(p) && add_fields(p@, self.lhs, self.rhs),
            Self::decode_spec(r) == Ok::<AddMap, Error>(*self),
    {
        let pairs = add_pairs(self.lhs, self.rhs);
        proof {
            lemma_add_names_differ();
            assert(value_at(pairs@, atom_bytes("rhs"), 1) == Some(pairs@[1].1));
        }
        Term::Mapping(pairs)
    }
}

/// Hands the value back unchanged.
pub fn map_echo(map: AddMap) -> (r: AddMap)
    ensures
        r == map,
{
    map
}

/// Two values, encoded as a map.
pub struct GenericMap<T, U> {
    pub lhs: T,
    pub rhs: U,
}

impl<'a, T: TermCodec<'a>, U: TermCodec<'a>> TermCodec<'a> for GenericMap<T, U> {
    open spec fn decodes_to(t: Term, v: Self) -> bool {
        match (map_get_spec(t, atom_bytes("lhs")), map_get_spec(t, atom_bytes("rhs"))) {
            (Some(a), Some(b)) => T::decodes_to(a, v.lhs) && U::decodes_to(b, v.rhs),
            _ => false,
        }
    }

    open spec fn decodable(t: Term) -> bool {
        match (map_get_spec(t, atom_bytes("lhs")), map_get_spec(t, atom_bytes("rhs"))) {
            (Some(a), Some(b)) => T::decodable(a) && U::decodable(b),
            _ => false,
        }
    }

    /// Reads a map that holds the fields `lhs` and `rhs`.
    fn decode(term: &'a Term) -> (r: Option<Self>) {
        match (map_get(term, "lhs"), map_get(term, "rhs")) {
            (Some(a), Some(b)) => match (T::decode(a), U::decode(b)) {
                (Some(lhs), Some(rhs)) => Some(GenericMap { lhs, rhs }),
                _ => None,
            },
            _ => None,
        }
    }

    /// Writes the two fields as a map.
    fn encode(&self) -> (r: Term) {
        let mut pairs: Vec<(Term, Term)> = Vec::new();
        pairs.push((atom_term("lhs"), self.lhs.encode()));
        pairs.push((atom_term("rhs"), self.rhs.encode()));
        proof {
            lemma_add_names_differ();
            assert(value_at(pairs@, atom_bytes("rhs"), 1) == Some(pairs@[1].1));
        }
        Term::Mapping(pairs)
    }
}

/// Hands the value back unchanged.
pub fn generic_map_echo<'a>(map: GenericMap<i32, &'a str>) -> (r: GenericMap<i32, &'a str>)
    ensures
        r == map,
{
    map
}

/// Two numbers, encoded as a struct named `AddStruct`.
#[derive(Debug)]
#[must_use]
pub struct AddStruct {
    pub lhs: i32,
    pub rhs: i32,
}

impl AddStruct {
    /// What [`AddStruct::decode`] returns on `t`.
    pub open spec fn decode_spec(t: Term) -> Result<AddStruct, Error> {
        match map_get_spec(t, atom_bytes("__struct__")) {
            Some(tag) => if is_atom_named(tag, atom_bytes("Elixir.AddStruct")) {
                match (
                    i32_of(map_get_spec(t, atom_bytes("lhs"))),
                    i32_of(map_get_spec(t, atom_bytes("rhs"))),
                ) {
                    (Some(lhs), Some(rhs)) => Ok(AddStruct { lhs, rhs }),
                    _ => Err(Error::InvalidStructKey),
                }
            } else {
                Err(Error::InvalidStruct)
            },
            None => Err(Error::ExpectedStruct),
        }
    }

    /// Decodes a struct of the module `Elixir.AddStruct`.
    pub fn decode(term: &Term) -> (r: Result<AddStruct, Error>)
        ensures
            r == Self::decode_spec(*term),
    {
        check_module(term, "Elixir.AddStruct")?;
        match (read_i32(map_get(term, "lhs")), read_i32(map_get(term, "rhs"))) {
            (Some(lhs), Some(rhs)) => Ok(AddStruct { lhs, rhs }),
            _ => Err(Error::InvalidStructKey),
        }
    }

    /// Encodes the value as a struct of the module `Elixir.AddStruct`.
    pub fn encode(&self) -> (r: Term)
        ensures
            r matches Term::Mapping(p) && (exists|fields: Seq<(Term, Term)>|
                #[trigger] add_fields(fields, self.lhs, self.rhs) && struct_pairs(
                    atom_bytes("Elixir.AddStruct"),
                    false,
                    fields,
                    p@,
                )),
            Self::decode_spec(r) == Ok::<AddStruct, Error>(*self),
    {
        let pairs = add_pairs(self.lhs, self.rhs);
        let ghost fields = pairs@;
        let r = encode_struct("Elixir.AddStruct", false, pairs);
        proof {
            lemma_add_names_differ();
            let p = crate::de::pairs_of(r);
            assert(p[1] == fields[0]);
            assert(p[2] == fields[1]);
            assert(value_at(p, atom_bytes("rhs"), 2) == Some(p[2].1));
            assert(value_at(p, atom_bytes("rhs"), 1) == Some(p[2].1));
            assert(value_at(p, atom_bytes("lhs"), 1) == Some(p[1].1));
        }
        r
    }
}

/// Hands the value back unchanged.
pub fn struct_echo(add_struct: AddStruct) -> (r: AddStruct)
    ensures
        r == add_struct,
{
    add_struct
}

/// Two values, encoded as a struct named `GenericStruct`.
#[derive(Debug)]
pub struct GenericStruct<T, U> {
    pub lhs: T,
    pub rhs: U,
}

impl<'a, T: TermCodec<'a>, U: TermCodec<'a>> TermCodec<'a> for GenericStruct<T, U> {
    open spec fn decodes_to(t: Term, v: Self) -> bool {
        match (
            map_get_spec(t, atom_bytes("__struct__")),
            map_get_spec(t, atom_bytes("lhs")),
            map_get_spec(t, atom_bytes("rhs")),
        ) {
            (Some(tag), Some(a), Some(b)) => is_atom_named(tag, atom_bytes("Elixir.GenericStruct"))
                && T::decodes_to(a, v.lhs) && U::decodes_to(b, v.rhs),
            _ => false,
        }
    }

    open spec fn decodable(t: Term) -> bool {
        match (
            map_get_spec(t, atom_bytes("__struct__")),
            map_get_spec(t, atom_bytes("lhs")),
            map_get_spec(t, atom_bytes("rhs")),
        ) {
            (Some(tag), Some(a), Some(b)) => is_atom_named(tag, atom_bytes("Elixir.GenericStruct"))
                && T::decodable(a) && U::decodable(b),
            _ => false,
        }
    }

    /// Reads a struct of the module `Elixir.GenericStruct`.
    fn decode(term: &'a Term) -> (r: Option<Self>) {
        if check_module(term, "Elixir.GenericStruct").is_err() {
            return None;
        }
        match (map_get(term, "lhs"), map_get(term, "rhs")) {
            (Some(a), Some(b)) => match (T::decode(a), U::decode(b)) {
                (Some(lhs), Some(rhs)) => Some(GenericStruct { lhs, rhs }),
                _ => None,
            },
            _ => None,
        }
    }

    /// Writes the two fields as a struct of the module
    /// `Elixir.GenericStruct`.
    fn encode(&self) -> (r: Term) {
        let mut pairs: Vec<(Term, Term)> = Vec::new();
        pairs.push((atom_term("lhs"), self.lhs.encode()));
        pairs.push((atom_term("rhs"), self.rhs.encode()));
        let ghost fields = pairs@;
        let r = encode_struct("Elixir.GenericStruct", false, pairs);
        proof {
            lemma_add_names_differ();
            let p = crate::de::pairs_of(r);
            assert(p[1] == fields[0]);
            assert(p[2] == fields[1]);
            assert(value_at(p, atom_bytes("rhs"), 2) == Some(p[2].1));
            assert(value_at(p, atom_bytes("rhs"), 1) == Some(p[2].1));
            assert(value_at(p, atom_bytes("lhs"), 1) == Some(p[1].1));
        }
        r
    }
}

/// Hands the value back unchanged.
pub fn generic_struct_echo<'a>(generic_struct: GenericStruct<i32, &'a str>) -> (r: GenericStruct<
    i32,
    &'a str,
>)
    ensures
        r == generic_struct,
{
    generic_struct
}

/// An exception named `AddException`.
#[derive(Debug)]
pub struct AddException {
    pub message: String,
}

impl AddException {
    /// Whether decoding `t` gives an exception with the message `message`: `t`
    /// is a struct of the module `Elixir.AddException` whose field `message`
    /// is that text.
    pub open spec fn decodes_to(t: Term, message: Seq<char>) -> bool {
        &&& map_get_spec(t, atom_bytes("__struct__")) matches Some(tag) && is_atom_named(
            tag,
            atom_bytes("Elixir.AddException"),
        )
        &&& text_of(map_get_spec(t, atom_bytes("message"))) == Some(message)
    }

    /// The error of decoding `t`, where it is no such exception.
    pub open spec fn decode_error(t: Term) -> Error {
        match map_get_spec(t, atom_bytes("__struct__")) {
            Some(tag) => if is_atom_named(tag, atom_bytes("Elixir.AddException")) {
                Error::InvalidStructKey
            } else {
                Error::InvalidStruct
            },
            None => Error::ExpectedStruct,
        }
    }

    /// Decodes an exception of the module `Elixir.AddException`.
    pub fn decode(term: &Term) -> (r: Result<AddException, Error>)
        ensures
            match r {
                Ok(x) => Self::decodes_to(*term, x.message@),
                Err(e) => e == Self::decode_error(*term) && forall|m: Seq<char>|
                    !Self::decodes_to(*term, m),
            },
    {
        check_module(term, "Elixir.AddException")?;
        match read_string(map_get(term, "message")) {
            Some(message) => Ok(AddException { message }),
            None => Err(Error::InvalidStructKey),
        }
    }

    /// Encodes the value as an exception of the module
    /// `Elixir.AddException`.
    pub fn encode(&self) -> (r: Term)
        ensures
            Self::decodes_to(r, self.message@),
    {
        let mut pairs: Vec<(Term, Term)> = Vec::new();
        pairs.push((atom_term("message"), text_term(self.message.as_str())));
        let ghost fields = pairs@;
        let r = encode_struct("Elixir.AddException", true, pairs);
        proof {
            reveal_strlit("message");
            reveal_strlit("__struct__");
            reveal_strlit("__exception__");
            assert("__struct__"@.len() != "message"@.len());
            assert("__exception__"@.len() != "message"@.len());
            lemma_atoms_differ("__struct__", "message");
            lemma_atoms_differ("__exception__", "message");
            let p = crate::de::pairs_of(r);
            assert(p[2] == fields[0]);
            assert(value_at(p, atom_bytes("message"), 2) == Some(p[2].1));
            assert(value_at(p, atom_bytes("message"), 1) == Some(p[2].1));
        }
        r
    }
}

/// Hands the value back unchanged.
pub fn exception_echo(add_exception: AddException) -> (r: AddException)
    ensures
        r == add_exception,
{
    add_exception
}

/// An exception named `GenericException` that carries a value.
#[derive(Debug)]
pub struct GenericException<T> {
    pub message: String,
    pub t: T,
}

impl<T> GenericException<T> {
    /// Whether decoding `t` gives an exception with the message `message`
    /// and the value `v`: `t` is a struct of the module
    /// `Elixir.GenericException` with these two fields.
    pub open spec fn decodes_to<'a>(t: Term, message: Seq<char>, v: T) -> bool where
        T: TermCodec<'a>,
     {
        &&& map_get_spec(t, atom_bytes("__struct__")) matches Some(tag) && is_atom_named(
            tag,
            atom_bytes("Elixir.GenericException"),
        )
        &&& text_of(map_get_spec(t, atom_bytes("message"))) == Some(message)
        &&& map_get_spec(t, atom_bytes("t")) matches Some(x) && T::decodes_to(x, v)
    }

    /// Whether `t` is such an exception.
    pub open spec fn decodable<'a>(t: Term) -> bool where T: TermCodec<'a> {
        &&& map_get_spec(t, atom_bytes("__struct__")) matches Some(tag) && is_atom_named(
            tag,
            atom_bytes("Elixir.GenericException"),
        )
        &&& text_of(map_get_spec(t, atom_bytes("message"))) is Some
        &&& map_get_spec(t, atom_bytes("t")) matches Some(x) && T::decodable(x)
    }

    /// Decodes an exception of the module `Elixir.GenericException`.
    pub fn decode<'a>(term: &'a Term) -> (r: Option<Self>) where T: TermCodec<'a>
        ensures
            r is Some == Self::decodable(*term),
            r matches Some(x) ==> Self::decodes_to(*term, x.message@, x.t),
    {
        if check_module(term, "Elixir.GenericException").is_err() {
            return None;
        }
        let message = match read_string(map_get(term, "message")) {
            Some(message) => message,
            None => {
                return None;
            },
        };
        match map_get(term, "t") {
            Some(x) => match T::decode(x) {
                Some(t) => Some(GenericException { message, t }),
                None => None,
            },
            None => None,
        }
    }

    /// Encodes the value as an exception of the module
    /// `Elixir.GenericException`.
    pub fn encode<'a>(&self) -> (r: Term) where T: TermCodec<'a>
        ensures
            Self::decodable(r),
            Self::decodes_to(r, self.message@, self.t),
    {
        let mut pairs: Vec<(Term, Term)> = Vec::new();
        pairs.push((atom_term("message"), text_term(self.message.as_str())));
        pairs.push((atom_term("t"), self.t.encode()));
        let ghost fields = pairs@;
        let r = encode_struct("Elixir.GenericException", true, pairs);
        proof {
            reveal_strlit("message");
            reveal_strlit("t");
            reveal_strlit("__struct__");
            reveal_strlit("__exception__");
            assert("__struct__"@.len() != "message"@.len());
            assert("__exception__"@.len() != "message"@.len());
            assert("__struct__"@.len() != "t"@.len());
            assert("__exception__"@.len() != "t"@.len());
            assert("message"@.len() != "t"@.len());
            lemma_atoms_differ("__struct__", "message");
            lemma_atoms_differ("__exception__", "message");
            lemma_atoms_differ("__struct__", "t");
            lemma_atoms_differ("__exception__", "t");
            lemma_atoms_differ("message", "t");
            let p = crate::de::pairs_of(r);
            assert(p[2] == fields[0]);
            assert(p[3] == fields[1]);
            assert(value_at(p, atom_bytes("message"), 2) == Some(p[2].1));
            assert(value_at(p, atom_bytes("message"), 1) == Some(p[2].1));
            assert(value_at(p, atom_bytes("t"), 3) == Some(p[3].1));
            assert(value_at(p, atom_bytes("t"), 2) == Some(p[3].1));
            assert(value_at(p, atom_bytes("t"), 1) == Some(p[3].1));
        }
        r
    }
}

/// Hands the value back unchanged.
pub fn generic_exception_echo(generic_exception: GenericException<i32>) -> (r: GenericException<
    i32,
>)
    ensures
        r == generic_exception,
{
    generic_exception
}

/// An enum of unit variants, each encoded as an atom.
#[derive(Clone, Copy, Debug, PartialEq, Eq, Structural)]
pub enum UnitEnum {
    FooBar,
    Baz,
}

impl UnitEnum {
    /// What [`UnitEnum::decode`] returns on `t`.
    pub open spec fn decode_spec(t: Term) -> Result<UnitEnum, Error> {
        if is_atom_named(t, atom_bytes("foo_bar")) {
            Ok(UnitEnum::FooBar)
        } else if is_atom_named(t, atom_bytes("baz")) {
            Ok(UnitEnum::Baz)
        } else {
            Err(Error::InvalidVariantName)
        }
    }

    /// Decodes the atom of a variant.
    pub fn decode(term: &Term) -> (r: Result<UnitEnum, Error>)
        ensures
            r == Self::decode_spec(*term),
    {
        if term.is_atom_of("foo_bar".as_bytes()) {
            Ok(UnitEnum::FooBar)
        } else if term.is_atom_of("baz".as_bytes()) {
            Ok(UnitEnum::Baz)
        } else {
            Err(Error::InvalidVariantName)
        }
    }

    /// Encodes the variant as its atom: the name in lower case, its words
    /// joined by underscores.
    pub fn encode(&self) -> (r: Term)
        ensures
            *self == UnitEnum::FooBar ==> is_atom_named(r, atom_bytes("foo_bar")),
            *self == UnitEnum::Baz ==> is_atom_named(r, atom_bytes("baz")),
            Self::decode_spec(r) == Ok::<UnitEnum, Error>(*self),
    {
        proof {
            reveal_strlit("foo_bar");
            reveal_strlit("baz");
            assert("foo_bar"@.len() != "baz"@.len());
            lemma_atoms_differ("foo_bar", "baz");
        }
        match self {
            UnitEnum::FooBar => atom_term("foo_bar"),
            UnitEnum::Baz => atom_term("baz"),
        }
    }
}

/// Hands the value back unchanged.
pub fn unit_enum_echo(unit_enum: UnitEnum) -> (r: UnitEnum)
    ensures
        r == unit_enum,
{
    unit_enum
}

/// An enum whose variants are told apart by the shape of their payload.
pub enum UntaggedEnum {
    Foo(u32),
    Bar(String),
    Baz(AddStruct),
    Bool(bool),
}

/// What reading `t` as an unsigned number of thirty-two bits gives.
pub open spec fn u32_of(t: Term) -> Option<u32> {
    match parse_integer_spec(t, 0, u32::MAX as int) {
        Ok(n) => Some(n as u32),
        Err(_) => None,
    }
}

impl UntaggedEnum {
    /// Whether decoding `t` gives `v`. The variants are tried in the order
    /// in which they are declared, and the first whose payload can be read
    /// from `t` is taken: a number, then a text, then a sum struct, then a
    /// boolean.
    pub open spec fn decodes_to(t: Term, v: UntaggedEnum) -> bool {
        match v {
            UntaggedEnum::Foo(n) => u32_of(t) == Some(n),
            UntaggedEnum::Bar(s) => u32_of(t) is None && parse_str_spec(t) == Ok::<
                Seq<char>,
                Error,
            >(s@),
            UntaggedEnum::Baz(x) => u32_of(t) is None && parse_str_spec(t) is Err
                && AddStruct::decode_spec(t) == Ok::<AddStruct, Error>(x),
            UntaggedEnum::Bool(b) => u32_of(t) is None && parse_str_spec(t) is Err
                && AddStruct::decode_spec(t) is Err && parse_bool_spec(t) == Ok::<bool, Error>(b),
        }
    }

    /// Whether `t` can be read as none of the variants.
    pub open spec fn no_variant(t: Term) -> bool {
        u32_of(t) is None && parse_str_spec(t) is Err && AddStruct::decode_spec(t) is Err
            && parse_bool_spec(t) is Err
    }

    /// Decodes the first variant whose payload can be read from the term; a
    /// term that is none of them fails with `ExpectedEnum`.
    pub fn decode(term: &Term) -> (r: Result<UntaggedEnum, Error>)
        ensures
            match r {
                Ok(v) => Self::decodes_to(*term, v),
                Err(e) => e == Error::ExpectedEnum && Self::no_variant(*term),
            },
    {
        if let Ok(n) = parse_u32(term) {
            return Ok(UntaggedEnum::Foo(n));
        }
        if let Some(s) = read_string(Some(term)) {
            return Ok(UntaggedEnum::Bar(s));
        }
        if let Ok(x) = AddStruct::decode(term) {
            return Ok(UntaggedEnum::Baz(x));
        }
        if let Ok(b) = parse_bool(term) {
            return Ok(UntaggedEnum::Bool(b));
        }
        Err(Error::ExpectedEnum)
    }

    /// Encodes the payload of the variant.
    pub fn encode(&self) -> (r: Term)
        ensures
            Self::decodes_to(r, *self),
    {
        match self {
            UntaggedEnum::Foo(n) => Term::Integer(*n as i128),
            UntaggedEnum::Bar(s) => text_term(s.as_str()),
            UntaggedEnum::Baz(x) => x.encode(),
            UntaggedEnum::Bool(b) => {
                let r = if *b {
                    atom_term("true")
                } else {
                    atom_term("false")
                };
                proof {
                    reveal_strlit("true");
                    reveal_strlit("false");
                    assert("true"@.len() != "false"@.len());
                    lemma_atoms_differ("true", "false");
                }
                r
            },
        }
    }
}

/// Hands the value back unchanged.
pub fn untagged_enum_echo(untagged_enum: UntaggedEnum) -> (r: UntaggedEnum)
    ensures
        r == untagged_enum,
{
    untagged_enum
}

/// An untagged enum with payloads of two free types.
pub enum GenericUntaggedEnum<T, U> {
    Foo(u32),
    Bar(T),
    Baz(U),
    Bool(bool),
}

impl<T, U> GenericUntaggedEnum<T, U> {
    /// Whether decoding `t` gives `v`. The variants are tried in the order
    /// in which they are declared, and the first whose payload can be read
    /// from `t` is taken.
    pub open spec fn decodes_to<'a>(t: Term, v: Self) -> bool where
        T: TermCodec<'a>,
        U: TermCodec<'a>,
     {
        match v {
            GenericUntaggedEnum::Foo(n) => u32_of(t) == Some(n),
            GenericUntaggedEnum::Bar(x) => u32_of(t) is None && T::decodes_to(t, x),
            GenericUntaggedEnum::Baz(y) => u32_of(t) is None && !T::decodable(t) && U::decodes_to(
                t,
                y,
            ),
            GenericUntaggedEnum::Bool(b) => u32_of(t) is None && !T::decodable(t) && !U::decodable(
                t,
            ) && parse_bool_spec(t) == Ok::<bool, Error>(b),
        }
    }

    /// Decodes the first variant whose payload can be read from the term; a
    /// term that is none of them fails with `ExpectedEnum`.
    pub fn decode<'a>(term: &'a Term) -> (r: Result<Self, Error>) where
        T: TermCodec<'a>,
        U: TermCodec<'a>,

        ensures
            match r {
                Ok(v) => Self::decodes_to(*term, v),
                Err(e) => e == Error::ExpectedEnum && u32_of(*term) is None && !T::decodable(*term)
                    && !U::decodable(*term) && parse_bool_spec(*term) is Err,
            },
    {
        if let Ok(n) = parse_u32(term) {
            return Ok(GenericUntaggedEnum::Foo(n));
        }
        if let Some(x) = T::decode(term) {
            return Ok(GenericUntaggedEnum::Bar(x));
        }
        if let Some(y) = U::decode(term) {
            return Ok(GenericUntaggedEnum::Baz(y));
        }
        if let Ok(b) = parse_bool(term) {
            return Ok(GenericUntaggedEnum::Bool(b));
        }
        Err(Error::ExpectedEnum)
    }

    /// Encodes the payload of the variant. Nothing in the term says which
    /// variant it came from: a payload that an earlier variant can read too
    /// is decoded as that variant.
    pub fn encode<'a>(&self) -> (r: Term) where T: TermCodec<'a>, U: TermCodec<'a>
        ensures
            match *self {
                GenericUntaggedEnum::Foo(n) => r == Term::Integer(n as i128),
                GenericUntaggedEnum::Bar(x) => T::decodes_to(r, x),
                GenericUntaggedEnum::Baz(y) => U::decodes_to(r, y),
                GenericUntaggedEnum::Bool(b) => parse_bool_spec(r) == Ok::<bool, Error>(b),
            },
    {
        match self {
            GenericUntaggedEnum::Foo(n) => Term::Integer(*n as i128),
            GenericUntaggedEnum::Bar(x) => x.encode(),
            GenericUntaggedEnum::Baz(y) => y.encode(),
            GenericUntaggedEnum::Bool(b) => b.encode(),
        }
    }
}

/// Hands the value back unchanged.
pub fn generic_untagged_enum_echo<'a>(
    generic_untagged_enum: GenericUntaggedEnum<GenericMap<i32, i32>, &'a str>,
) -> (r: GenericUntaggedEnum<GenericMap<i32, i32>, &'a str>)
    ensures
        r == generic_untagged_enum,
{
    generic_untagged_enum
}

/// A value that stands for every term but `false` and `nil`.
#[derive(Clone, Copy, Debug, PartialEq, Eq, Structural)]
pub struct Truthy;

impl<'a> TermCodec<'a> for Truthy {
    open spec fn decodes_to(t: Term, v: Truthy) -> bool {
        !is_atom_named(t, atom_bytes("false")) && !is_atom_named(t, atom_bytes("nil"))
    }

    open spec fn decodable(t: Term) -> bool {
        !is_atom_named(t, atom_bytes("false")) && !is_atom_named(t, atom_bytes("nil"))
    }

    /// Reads any term but the atoms `false` and `nil`.
    fn decode(term: &'a Term) -> (r: Option<Truthy>) {
        if term.is_atom_of("false".as_bytes()) || term.is_atom_of("nil".as_bytes()) {
            None
        } else {
            Some(Truthy)
        }
    }

    /// Writes the atom `true`, the one term that stands for every truthy
    /// value.
    fn encode(&self) -> (r: Term)
        ensures
            is_atom_named(r, atom_bytes("true")),
    {
        proof {
            reveal_strlit("true");
            reveal_strlit("false");
            reveal_strlit("nil");
            assert("true"@.len() != "false"@.len());
            assert("true"@.len() != "nil"@.len());
            lemma_atoms_differ("true", "false");
            lemma_atoms_differ("true", "nil");
        }
        atom_term("true")
    }
}

/// An untagged enum whose last variant accepts every truthy term.
pub enum UntaggedEnumWithTruthy {
    Baz(AddStruct),
    Truthy(Truthy),
}

impl UntaggedEnumWithTruthy {
    /// Whether decoding `t` gives `v`: a sum struct where `t` is one, else
    /// the truthy value where `t` is truthy.
    pub open spec fn decodes_to(t: Term, v: UntaggedEnumWithTruthy) -> bool {
        match v {
            UntaggedEnumWithTruthy::Baz(x) => AddStruct::decode_spec(t) == Ok::<AddStruct, Error>(
                x,
            ),
            UntaggedEnumWithTruthy::Truthy(y) => AddStruct::decode_spec(t) is Err
                && Truthy::decodable(t),
        }
    }

    /// Decodes the first variant that fits; a term that is neither fails
    /// with `ExpectedEnum`.
    pub fn decode(term: &Term) -> (r: Result<UntaggedEnumWithTruthy, Error>)
        ensures
            match r {
                Ok(v) => Self::decodes_to(*term, v),
                Err(e) => e == Error::ExpectedEnum && AddStruct::decode_spec(*term) is Err
                    && !Truthy::decodable(*term),
            },
    {
        if let Ok(x) = AddStruct::decode(term) {
            return Ok(UntaggedEnumWithTruthy::Baz(x));
        }
        if let Some(y) = Truthy::decode(term) {
            return Ok(UntaggedEnumWithTruthy::Truthy(y));
        }
        Err(Error::ExpectedEnum)
    }

    /// Encodes the payload of the variant.
    pub fn encode(&self) -> (r: Term)
        ensures
            Self::decodes_to(r, *self),
    {
        match self {
            UntaggedEnumWithTruthy::Baz(x) => x.encode(),
            UntaggedEnumWithTruthy::Truthy(y) => y.encode(),
        }
    }
}

/// Hands the value back unchanged.
pub fn untagged_enum_with_truthy(untagged_enum: UntaggedEnumWithTruthy) -> (r:
    UntaggedEnumWithTruthy)
    ensures
        r == untagged_enum,
{
    untagged_enum
}

/// An untagged enum whose only variant holds a list of numbers.
pub enum UntaggedEnumForIssue370 {
    Vec(Vec<i64>),
}

impl UntaggedEnumForIssue370 {
    /// Whether decoding `t` gives `v`: `t` is the list of the numbers.
    pub open spec fn decodes_to(t: Term, v: UntaggedEnumForIssue370) -> bool {
        match v {
            UntaggedEnumForIssue370::Vec(numbers) => <Vec<i64> as TermCodec<'static>>::decodes_to(
                t,
                numbers,
            ),
        }
    }

    /// Decodes a list of numbers; any other term fails with `ExpectedEnum`.
    pub fn decode(term: &Term) -> (r: Result<UntaggedEnumForIssue370, Error>)
        ensures
            match r {
                Ok(v) => Self::decodes_to(*term, v),
                Err(e) => e == Error::ExpectedEnum && !<Vec<i64> as TermCodec<
                    'static,
                >>::decodable(*term),
            },
    {
        match <Vec<i64> as TermCodec>::decode(term) {
            Some(numbers) => Ok(UntaggedEnumForIssue370::Vec(numbers)),
            None => Err(Error::ExpectedEnum),
        }
    }

    /// Encodes the numbers as a list.
    pub fn encode(&self) -> (r: Term)
        ensures
            Self::decodes_to(r, *self),
    {
        match self {
            UntaggedEnumForIssue370::Vec(numbers) => numbers.encode(),
        }
    }
}

/// Hands the value back unchanged.
pub fn untagged_enum_for_issue_370(untagged_enum: UntaggedEnumForIssue370) -> (r:
    UntaggedEnumForIssue370)
    ensures
        r == untagged_enum,
{
    untagged_enum
}

/// One number, encoded as a tuple of one element.
pub struct Newtype(pub i64);

impl Newtype {
    /// What [`Newtype::decode`] returns on `t`.
    pub open spec fn decode_spec(t: Term) -> Result<Newtype, Error> {
        match validate_tuple_spec(t, Some(1)) {
            Ok(s) => match i64_of(Some(s[0])) {
                Some(n) => Ok(Newtype(n)),
                None => Err(Error::InvalidTuple),
            },
            Err(e) => Err(e),
        }
    }

    /// Decodes a tuple of one number.
    pub fn decode(term: &Term) -> (r: Result<Newtype, Error>)
        ensures
            r == Self::decode_spec(*term),
    {
        let tuple = validate_tuple(term, Some(1))?;
        match read_i64(element(tuple, 0)) {
            Some(n) => Ok(Newtype(n)),
            None => Err(Error::InvalidTuple),
        }
    }

    /// Encodes the value as a tuple of its number.
    pub fn encode(&self) -> (r: Term)
        ensures
            is_tuple_of(r, seq![Term::Integer(self.0 as i128)]),
            Self::decode_spec(r) == Ok::<Newtype, Error>(*self),
    {
        let mut items: Vec<Term> = Vec::new();
        items.push(Term::Integer(self.0 as i128));
        assert(items@ =~= seq![Term::Integer(self.0 as i128)]);
        Term::Tuple(items)
    }
}

/// Hands the value back unchanged.
pub fn newtype_echo(newtype: Newtype) -> (r: Newtype)
    ensures
        r == newtype,
{
    newtype
}

/// Three numbers, encoded as a tuple.
pub struct TupleStruct(pub i64, pub i64, pub i64);

/// What reading the first three terms of `s` as numbers of sixty-four bits
/// gives, where all three are such numbers.
pub open spec fn three_numbers(s: Seq<Term>) -> Option<(i64, i64, i64)> {
    match (i64_of(Some(s[0])), i64_of(Some(s[1])), i64_of(Some(s[2]))) {
        (Some(a), Some(b), Some(c)) => Some((a, b, c)),
        _ => None,
    }
}

/// The terms of three numbers.
pub open spec fn number_terms(a: i64, b: i64, c: i64) -> Seq<Term> {
    seq![Term::Integer(a as i128), Term::Integer(b as i128), Term::Integer(c as i128)]
}

impl TupleStruct {
    /// What [`TupleStruct::decode`] returns on `t`.
    pub open spec fn decode_spec(t: Term) -> Result<TupleStruct, Error> {
        match validate_tuple_spec(t, Some(3)) {
            Ok(s) => match three_numbers(s) {
                Some((a, b, c)) => Ok(TupleStruct(a, b, c)),
                None => Err(Error::InvalidTuple),
            },
            Err(e) => Err(e),
        }
    }

    /// Decodes a tuple of three numbers.
    pub fn decode(term: &Term) -> (r: Result<TupleStruct, Error>)
        ensures
            r == Self::decode_spec(*term),
    {
        let tuple = validate_tuple(term, Some(3))?;
        match (
            read_i64(element(tuple, 0)),
            read_i64(element(tuple, 1)),
            read_i64(element(tuple, 2)),
        ) {
            (Some(a), Some(b), Some(c)) => Ok(TupleStruct(a, b, c)),
            _ => Err(Error::InvalidTuple),
        }
    }

    /// Encodes the value as a tuple of its three numbers.
    pub fn encode(&self) -> (r: Term)
        ensures
            is_tuple_of(r, number_terms(self.0, self.1, self.2)),
            Self::decode_spec(r) == Ok::<TupleStruct, Error>(*self),
    {
        let mut items: Vec<Term> = Vec::new();
        items.push(Term::Integer(self.0 as i128));
        items.push(Term::Integer(self.1 as i128));
        items.push(Term::Integer(self.2 as i128));
        assert(items@ =~= number_terms(self.0, self.1, self.2));
        Term::Tuple(items)
    }
}

/// Hands the value back unchanged.
pub fn tuplestruct_echo(tuplestruct: TupleStruct) -> (r: TupleStruct)
    ensures
        r == tuplestruct,
{
    tuplestruct
}

/// One number, encoded as a record with the tag `newtype`.
pub struct NewtypeRecord(pub i64);

impl NewtypeRecord {
    /// What [`NewtypeRecord::decode`] returns on `t`.
    pub open spec fn decode_spec(t: Term) -> Result<NewtypeRecord, Error> {
        match record_fields(t, atom_bytes("newtype"), 1) {
            Ok(s) => match i64_of(Some(s[0])) {
                Some(n) => Ok(NewtypeRecord(n)),
                None => Err(Error::InvalidTuple),
            },
            Err(e) => Err(e),
        }
    }

    /// Decodes a record with the tag `newtype` and one number.
    pub fn decode(term: &Term) -> (r: Result<NewtypeRecord, Error>)
        ensures
            r == Self::decode_spec(*term),
    {
        let tuple = check_record(term, "newtype", 1)?;
        match read_i64(element(tuple, 1)) {
            Some(n) => Ok(NewtypeRecord(n)),
            None => Err(Error::InvalidTuple),
        }
    }

    /// Encodes the value as a record with the tag `newtype`.
    pub fn encode(&self) -> (r: Term)
        ensures
            is_record_of(r, atom_bytes("newtype"), seq![Term::Integer(self.0 as i128)]),
            Self::decode_spec(r) == Ok::<NewtypeRecord, Error>(*self),
    {
        let mut items: Vec<Term> = Vec::new();
        items.push(atom_term("newtype"));
        items.push(Term::Integer(self.0 as i128));
        assert(items@.drop_first() =~= seq![Term::Integer(self.0 as i128)]);
        Term::Tuple(items)
    }
}

/// Hands the value back unchanged.
pub fn newtype_record_echo(newtype: NewtypeRecord) -> (r: NewtypeRecord)
    ensures
        r == newtype,
{
    newtype
}

/// Three numbers, encoded as a record with the tag `tuplestruct`.
pub struct TupleStructRecord(pub i64, pub i64, pub i64);

impl TupleStructRecord {
    /// What [`TupleStructRecord::decode`] returns on `t`.
    pub open spec fn decode_spec(t: Term) -> Result<TupleStructRecord, Error> {
        match record_fields(t, atom_bytes("tuplestruct"), 3) {
            Ok(s) => match three_numbers(s) {
                Some((a, b, c)) => Ok(TupleStructRecord(a, b, c)),
                None => Err(Error::InvalidTuple),
            },
            Err(e) => Err(e),
        }
    }

    /// Decodes a record with the tag `tuplestruct` and three numbers.
    pub fn decode(term: &Term) -> (r: Result<TupleStructRecord, Error>)
        ensures
            r == Self::decode_spec(*term),
    {
        let tuple = check_record(term, "tuplestruct", 3)?;
        match (
            read_i64(element(tuple, 1)),
            read_i64(element(tuple, 2)),
            read_i64(element(tuple, 3)),
        ) {
            (Some(a), Some(b), Some(c)) => Ok(TupleStructRecord(a, b, c)),
            _ => Err(Error::InvalidTuple),
        }
    }

    /// Encodes the value as a record with the tag `tuplestruct`.
    pub fn encode(&self) -> (r: Term)
        ensures
            is_record_of(r, atom_bytes("tuplestruct"), number_terms(self.0, self.1, self.2)),
            Self::decode_spec(r) == Ok::<TupleStructRecord, Error>(*self),
    {
        let mut items: Vec<Term> = Vec::new();
        items.push(atom_term("tuplestruct"));
        items.push(Term::Integer(self.0 as i128));
        items.push(Term::Integer(self.1 as i128));
        items.push(Term::Integer(self.2 as i128));
        assert(items@.drop_first() =~= number_terms(self.0, self.1, self.2));
        Term::Tuple(items)
    }
}

/// Hands the value back unchanged.
pub fn tuplestruct_record_echo(tuplestruct: TupleStructRecord) -> (r: TupleStructRecord)
    ensures
        r == tuplestruct,
{
    tuplestruct
}

} // verus!
