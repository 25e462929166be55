//! The dispatcher: for each target shape, which callback of the shape
//! assembler a term leads to and on which value; and the accessor for enum
//! variants.
use vstd::prelude::*;
use vstd::string::*;
use vstd::utf8::*;
use crate::access::{
    handed_out, held, lemma_sequence_order_preserved, MapDeserializer, MapModel,
    SequenceDeserializer,
};
use crate::atoms::{atom_name, term_to_string};
use crate::error::Error;
use crate::term::Term;
use crate::text::{scalar_char, str_eq};
use crate::util::{
    has_name, is_named, is_nil, is_nil_spec, name_of, parse_binary, parse_bool, parse_bool_spec,
    parse_double, parse_double_spec, parse_i16, parse_i32, parse_i64, parse_i8, parse_integer_spec,
    parse_str, parse_str_spec, parse_u16, parse_u32, parse_u64, parse_u8, struct_tag, term_to_str,
    validate_struct, validate_struct_spec, validate_tagged_tuple, validate_tuple,
    validate_tuple_spec,
};

verus! {

/// The kind of an enum variant, as the shape of a term shows it. `Any` is the
/// kind of a variant that is decoded without a list of legal names.
#[derive(Clone, Copy, Debug, PartialEq, Eq, Structural)]
pub enum EnumDeserializerType {
    Any,
    Unit,
    Newtype,
    Tuple,
    Struct,
}

/// What an enum accessor holds: the kind of the variant, the term that names
/// it, the name it resolves to, and the enclosing term.
pub struct EnumModel {
    pub kind: EnumDeserializerType,
    pub name_term: Term,
    pub name: Seq<char>,
    pub term: Option<Term>,
}

/// The names in a list of legal variant names.
pub open spec fn names_of(variants: &[&str]) -> Seq<Seq<char>> {
    variants@.map_values(|s: &str| s@)
}

/// What [`EnumDeserializer::new`] returns: the accessor, where the name term
/// resolves and the name is a legal one or the kind is `Any`;
/// `InvalidVariantName` otherwise.
pub open spec fn enum_new_spec(
    kind: EnumDeserializerType,
    name_term: Term,
    variants: Seq<Seq<char>>,
    term: Option<Term>,
) -> Result<EnumModel, Error> {
    match name_of(name_term) {
        Ok(name) => if kind == EnumDeserializerType::Any || variants.contains(name) {
            Ok(EnumModel { kind, name_term, name, term })
        } else {
            Err(Error::InvalidVariantName)
        },
        Err(_) => Err(Error::InvalidVariantName),
    }
}

/// What [`EnumDeserializer::newtype_variant_seed`] returns in state `m`.
pub open spec fn newtype_variant_spec(m: EnumModel) -> Result<Term, Error> {
    if m.kind == EnumDeserializerType::Any || m.kind == EnumDeserializerType::Newtype {
        match m.term {
            Some(t) => match validate_tuple_spec(t, Some(2)) {
                Ok(elements) => Ok(elements[1]),
                Err(e) => Err(e),
            },
            None => Err(Error::ExpectedNewtypeVariant),
        }
    } else {
        Err(Error::ExpectedNewtypeVariant)
    }
}

/// What [`EnumDeserializer::tuple_variant`] returns in state `m`: the payload
/// elements that follow the name.
pub open spec fn tuple_variant_spec(m: EnumModel, len: int) -> Result<Seq<Term>, Error> {
    if m.kind == EnumDeserializerType::Any || m.kind == EnumDeserializerType::Tuple {
        match m.term {
            Some(t) => match validate_tuple_spec(t, Some(len + 1)) {
                Ok(elements) => Ok(elements.drop_first()),
                Err(e) => Err(e),
            },
            None => Err(Error::ExpectedTupleVariant),
        }
    } else {
        Err(Error::ExpectedTupleVariant)
    }
}

/// The pairs of a map term.
pub open spec fn pairs_of(t: Term) -> Seq<(Term, Term)> {
    match t {
        Term::Mapping(p) => p@,
        _ => Seq::empty(),
    }
}

/// What [`EnumDeserializer::struct_variant`] returns in state `m`.
pub open spec fn struct_variant_spec(m: EnumModel) -> Result<MapModel, Error> {
    if m.kind == EnumDeserializerType::Struct {
        match m.term {
            Some(t) => match validate_struct_spec(t, Some(m.name)) {
                Ok(_) => Ok(
                    MapModel { tag: Some(m.name_term), remaining: pairs_of(t), pending: None },
                ),
                Err(e) => Err(e),
            },
            None => Err(Error::ExpectedStructVariant),
        }
    } else {
        Err(Error::ExpectedStructVariant)
    }
}

/// Whether `name` is one of `variants`.
pub fn is_legal_name(variants: &[&str], name: &str) -> (r: bool)
    ensures
        r == names_of(variants).contains(name@),
{
    let mut i: usize = 0;
    while i < variants.len()
        invariant
            i <= variants@.len(),
            forall|j: int| 0 <= j < i ==> names_of(variants)[j] != name@,
        decreases variants@.len() - i,
    {
        if str_eq(variants[i], name) {
            assert(names_of(variants)[i as int] == name@);
            return true;
        }
        i += 1;
    }
    false
}

/// The accessor of one enum variant.
pub struct EnumDeserializer<'a> {
    variant_type: EnumDeserializerType,
    variant_term: &'a Term,
    variant: String,
    term: Option<&'a Term>,
}

impl<'a> View for EnumDeserializer<'a> {
    type V = EnumModel;

    closed spec fn view(&self) -> EnumModel {
        EnumModel {
            kind: self.variant_type,
            name_term: *self.variant_term,
            name: self.variant@,
            term: held(self.term),
        }
    }
}

impl<'a> EnumDeserializer<'a> {
    /// The name of the variant is the name that its name term resolves to.
    #[verifier::type_invariant]
    spec fn named(&self) -> bool {
        is_named(*self.variant_term, self.variant@)
    }

    /// The accessor for a variant of kind `variant_type` that `variant_term`
    /// names, inside `term`. Unless the kind is `Any`, the name must be one of
    /// `variants`.
    pub fn new(
        variant_type: EnumDeserializerType,
        variant_term: &'a Term,
        variants: &[&str],
        term: Option<&'a Term>,
    ) -> (r: Result<Self, Error>)
        ensures
            match r {
                Ok(de) => enum_new_spec(variant_type, *variant_term, names_of(variants), held(term))
                    == Ok::<EnumModel, Error>(de@),
                Err(e) => enum_new_spec(variant_type, *variant_term, names_of(variants), held(term))
                    == Err::<EnumModel, Error>(e),
            },
    {
        let variant = match term_to_str(variant_term) {
            Ok(s) => s,
            Err(_) => {
                return Err(Error::InvalidVariantName);
            },
        };
        match variant_type {
            EnumDeserializerType::Any => Ok(
                EnumDeserializer { variant_type, variant_term, variant, term },
            ),
            _ => {
                if is_legal_name(variants, variant.as_str()) {
                    Ok(EnumDeserializer { variant_type, variant_term, variant, term })
                } else {
                    Err(Error::InvalidVariantName)
                }
            },
        }
    }

    /// The kind of the variant.
    pub fn variant_type(&self) -> (r: EnumDeserializerType)
        ensures
            r == self@.kind,
    {
        self.variant_type
    }

    /// The name of the variant.
    pub fn variant(&self) -> (r: &str)
        ensures
            r@ == self@.name,
    {
        self.variant.as_str()
    }

    /// Resolves the name of the variant and hands it out with the accessor.
    pub fn variant_seed(self) -> (r: Result<(String, Self), Error>)
        ensures
            r matches Ok((name, de)) && name@ == self@.name && de@ == self@,
    {
        proof {
            use_type_invariant(&self);
        }
        match term_to_str(self.variant_term) {
            Ok(name) => Ok((name, self)),
            Err(e) => Err(e),
        }
    }

    /// A unit variant has no payload: succeeds where the kind is `Unit` or
    /// `Any`, and fails with `ExpectedUnitVariant` otherwise.
    pub fn unit_variant(self) -> (r: Result<(), Error>)
        ensures
            (self@.kind == EnumDeserializerType::Any || self@.kind == EnumDeserializerType::Unit)
                ==> r is Ok,
            !(self@.kind == EnumDeserializerType::Any || self@.kind == EnumDeserializerType::Unit)
                ==> (r matches Err(e) && e == Error::ExpectedUnitVariant),
    {
        match self.variant_type {
            EnumDeserializerType::Any | EnumDeserializerType::Unit => Ok(()),
            _ => Err(Error::ExpectedUnitVariant),
        }
    }

    /// The payload of a newtype variant: the second element of the enclosing
    /// pair.
    pub fn newtype_variant_seed(self) -> (r: Result<&'a Term, Error>)
        ensures
            match r {
                Ok(t) => newtype_variant_spec(self@) == Ok::<Term, Error>(*t),
                Err(e) => newtype_variant_spec(self@) == Err::<Term, Error>(e),
            },
    {
        match self.variant_type {
            EnumDeserializerType::Any | EnumDeserializerType::Newtype => {
                match self.term {
                    Some(term) => {
                        let tuple = validate_tuple(term, Some(2))?;
                        Ok(&tuple[1])
                    },
                    None => Err(Error::ExpectedNewtypeVariant),
                }
            },
            _ => Err(Error::ExpectedNewtypeVariant),
        }
    }

    /// The payload of a tuple variant with `len` elements: a cursor over the
    /// elements that follow the name in the enclosing tuple.
    pub fn tuple_variant(self, len: usize) -> (r: Result<SequenceDeserializer<'a>, Error>)
        ensures
            match r {
                Ok(seq) => tuple_variant_spec(self@, len as int) == Ok::<Seq<Term>, Error>(seq@),
                Err(e) => tuple_variant_spec(self@, len as int) == Err::<Seq<Term>, Error>(e),
            },
    {
        match self.variant_type {
            EnumDeserializerType::Any | EnumDeserializerType::Tuple => {
                match self.term {
                    Some(term) => {
                        let tuple = validate_tagged_tuple(term, len)?;
                        let seq = SequenceDeserializer::starting_at(tuple, 1);
                        assert(seq@ =~= tuple@.drop_first());
                        Ok(seq)
                    },
                    None => Err(Error::ExpectedTupleVariant),
                }
            },
            _ => Err(Error::ExpectedTupleVariant),
        }
    }

    /// The payload of a struct variant: a cursor over the pairs of the
    /// enclosing map, which must be tagged with the name of the variant.
    pub fn struct_variant(self, _fields: &[&str]) -> (r: Result<MapDeserializer<'a>, Error>)
        ensures
            match r {
                Ok(map) => struct_variant_spec(self@) == Ok::<MapModel, Error>(map@),
                Err(e) => struct_variant_spec(self@) == Err::<MapModel, Error>(e),
            },
    {
        match self.variant_type {
            EnumDeserializerType::Struct => {
                match self.term {
                    Some(term) => {
                        validate_struct(term, Some(self.variant.as_str()))?;
                        match term {
                            Term::Mapping(pairs) => Ok(
                                MapDeserializer::new(pairs, Some(self.variant_term)),
                            ),
                            _ => Err(Error::ExpectedStruct),
                        }
                    },
                    None => Err(Error::ExpectedStructVariant),
                }
            },
            _ => Err(Error::ExpectedStructVariant),
        }
    }
}

/// A term that is read as a name: the name of a variant, of a struct or of a
/// field.
pub struct VariantNameDeserializer<'a> {
    variant: &'a Term,
}

impl<'a> VariantNameDeserializer<'a> {
    /// The term as a name.
    pub fn from(variant: &'a Term) -> (r: Self)
        ensures
            r.term() == *variant,
    {
        VariantNameDeserializer { variant }
    }

    /// The term that is read.
    pub closed spec fn term(&self) -> Term {
        *self.variant
    }

    /// Resolves the name: hands out the name of an atom, the text of a
    /// binary or the decimal rendering of an integer. Any other term is not
    /// name-representable.
    pub fn deserialize_any(self) -> (r: Result<Visit<'a>, Error>)
        ensures
            match r {
                Ok(v) => v@ matches Shape::Text(name) && name_of(self.term()) == Ok::<
                    Seq<char>,
                    Error,
                >(name),
                Err(e) => name_of(self.term()) == Err::<Seq<char>, Error>(e),
            },
    {
        match term_to_str(self.variant) {
            Ok(name) => Ok(Visit::Text(name)),
            Err(e) => Err(e),
        }
    }
}

/// The callback that a term leads to, with the value to hand to it.
///
/// `Str` and `Bytes` lend the text and the bytes of the term; `Text` owns a
/// name that was resolved. `F32` and `F64` hold the bit pattern of the term's
/// double, which the caller turns into a float of the width it asked for.
pub enum Visit<'a> {
    Unit,
    Bool(bool),
    I8(i8),
    I16(i16),
    I32(i32),
    I64(i64),
    U8(u8),
    U16(u16),
    U32(u32),
    U64(u64),
    F32(u64),
    F64(u64),
    Char(char),
    Str(&'a str),
    Text(String),
    Bytes(&'a [u8]),
    Absent,
    Present(&'a Term),
    Newtype(&'a Term),
    Sequence(SequenceDeserializer<'a>),
    Mapping(MapDeserializer<'a>),
    Variant(EnumDeserializer<'a>),
}

/// What a [`Visit`] holds.
pub enum Shape {
    Unit,
    Bool(bool),
    I8(i8),
    I16(i16),
    I32(i32),
    I64(i64),
    U8(u8),
    U16(u16),
    U32(u32),
    U64(u64),
    F32(u64),
    F64(u64),
    Char(char),
    Str(Seq<char>),
    Text(Seq<char>),
    Bytes(Seq<u8>),
    Absent,
    Present(Term),
    Newtype(Term),
    Sequence(Seq<Term>),
    Mapping(MapModel),
    Variant(EnumModel),
}

impl<'a> View for Visit<'a> {
    type V = Shape;

    open spec fn view(&self) -> Shape {
        match *self {
            Visit::Unit => Shape::Unit,
            Visit::Bool(b) => Shape::Bool(b),
            Visit::I8(n) => Shape::I8(n),
            Visit::I16(n) => Shape::I16(n),
            Visit::I32(n) => Shape::I32(n),
            Visit::I64(n) => Shape::I64(n),
            Visit::U8(n) => Shape::U8(n),
            Visit::U16(n) => Shape::U16(n),
            Visit::U32(n) => Shape::U32(n),
            Visit::U64(n) => Shape::U64(n),
            Visit::F32(bits) => Shape::F32(bits),
            Visit::F64(bits) => Shape::F64(bits),
            Visit::Char(c) => Shape::Char(c),
            Visit::Str(s) => Shape::Str(s@),
            Visit::Text(s) => Shape::Text(s@),
            Visit::Bytes(b) => Shape::Bytes(b@),
            Visit::Absent => Shape::Absent,
            Visit::Present(t) => Shape::Present(*t),
            Visit::Newtype(t) => Shape::Newtype(*t),
            Visit::Sequence(seq) => Shape::Sequence(seq@),
            Visit::Mapping(map) => Shape::Mapping(map@),
            Visit::Variant(de) => Shape::Variant(de@),
        }
    }
}

/// Whether the outcome `r` of an entry point is the outcome `m` of its model.
pub open spec fn outcome(r: Result<Visit, Error>, m: Result<Shape, Error>) -> bool {
    match r {
        Ok(v) => m == Ok::<Shape, Error>(v@),
        Err(e) => m == Err::<Shape, Error>(e),
    }
}

/// A number read without a type hint: an integer that fits sixty-four bits
/// unsigned is unsigned; one that does not, and fits sixty-four bits signed,
/// is signed; a float is a double. No other number can be read.
pub open spec fn any_number_spec(t: Term) -> Result<Shape, Error> {
    match t {
        Term::Integer(n) => if 0 <= n <= u64::MAX {
            Ok(Shape::U64(n as u64))
        } else if i64::MIN <= n <= i64::MAX {
            Ok(Shape::I64(n as i64))
        } else {
            Err(Error::ExpectedNumber)
        },
        Term::Float(bits) => Ok(Shape::F64(bits)),
        _ => Err(Error::ExpectedNumber),
    }
}

/// What [`Term::deserialize_any`] returns on `t`.
pub open spec fn any_spec(t: Term) -> Result<Shape, Error> {
    match t {
        Term::Atom(b) => if is_nil_spec(t) {
            Ok(Shape::Unit)
        } else {
            match parse_bool_spec(t) {
                Ok(x) => Ok(Shape::Bool(x)),
                Err(_) => match atom_name(b@) {
                    Ok(name) => Ok(Shape::Text(name)),
                    Err(e) => Err(e),
                },
            }
        },
        Term::Integer(_) => any_number_spec(t),
        Term::Float(_) => any_number_spec(t),
        Term::Binary(_) => str_spec(t),
        Term::List(v) => Ok(Shape::Sequence(v@)),
        Term::Mapping(p) => Ok(
            Shape::Mapping(MapModel { tag: struct_tag(t), remaining: p@, pending: None }),
        ),
        Term::Tuple(v) => Ok(Shape::Sequence(v@)),
        _ => Err(Error::TypeHintsRequired),
    }
}

/// What [`Term::deserialize_unit`] returns on `t`.
pub open spec fn unit_spec(t: Term) -> Result<Shape, Error> {
    if is_nil_spec(t) {
        Ok(Shape::Unit)
    } else {
        Err(Error::ExpectedNil)
    }
}

/// What [`Term::deserialize_bool`] returns on `t`.
pub open spec fn bool_spec(t: Term) -> Result<Shape, Error> {
    match parse_bool_spec(t) {
        Ok(b) => Ok(Shape::Bool(b)),
        Err(e) => Err(e),
    }
}

/// What [`Term::deserialize_option`] returns on `t`.
pub open spec fn option_spec(t: Term) -> Shape {
    if is_nil_spec(t) {
        Shape::Absent
    } else {
        Shape::Present(t)
    }
}

/// What [`Term::deserialize_char`] returns on `t`: the character whose code
/// point is the only element of a list; `ExpectedChar` for anything else.
pub open spec fn char_spec(t: Term) -> Result<Shape, Error> {
    match t {
        Term::List(v) => if v@.len() == 1 {
            match v@[0] {
                Term::Integer(n) => if 0 <= n <= u32::MAX && is_scalar(n as u32) {
                    Ok(Shape::Char((n as u32) as char))
                } else {
                    Err(Error::ExpectedChar)
                },
                _ => Err(Error::ExpectedChar),
            }
        } else {
            Err(Error::ExpectedChar)
        },
        _ => Err(Error::ExpectedChar),
    }
}

/// What [`Term::deserialize_str`] returns on `t`.
pub open spec fn str_spec(t: Term) -> Result<Shape, Error> {
    match parse_str_spec(t) {
        Ok(s) => Ok(Shape::Str(s)),
        Err(e) => Err(e),
    }
}

/// What [`Term::deserialize_bytes`] returns on `t`.
pub open spec fn bytes_spec(t: Term) -> Result<Shape, Error> {
    match t {
        Term::Binary(v) => Ok(Shape::Bytes(v@)),
        _ => Err(Error::ExpectedBinary),
    }
}

/// What [`Term::deserialize_seq`] returns on `t`.
pub open spec fn seq_spec(t: Term) -> Result<Shape, Error> {
    match t {
        Term::List(v) => Ok(Shape::Sequence(v@)),
        _ => Err(Error::ExpectedList),
    }
}

/// What [`Term::deserialize_tuple`] returns on `t`.
pub open spec fn tuple_spec(t: Term, len: int) -> Result<Shape, Error> {
    match validate_tuple_spec(t, Some(len)) {
        Ok(elements) => Ok(Shape::Sequence(elements)),
        Err(e) => Err(e),
    }
}

/// What [`Term::deserialize_newtype_struct`] returns on `t`: the second
/// element of a pair whose first element resolves to `name`.
pub open spec fn newtype_struct_spec(t: Term, name: Seq<char>) -> Result<Shape, Error> {
    match validate_tuple_spec(t, Some(2)) {
        Ok(elements) => if is_named(elements[0], name) {
            Ok(Shape::Newtype(elements[1]))
        } else {
            Err(Error::InvalidStructName)
        },
        Err(e) => Err(e),
    }
}

/// What [`Term::deserialize_tuple_struct`] returns on `t`: the elements that
/// follow the first one in a tuple of `len + 1` elements whose first element
/// resolves to `name`.
pub open spec fn tuple_struct_spec(t: Term, name: Seq<char>, len: int) -> Result<Shape, Error> {
    match validate_tuple_spec(t, Some(len + 1)) {
        Ok(elements) => if is_named(elements[0], name) {
            Ok(Shape::Sequence(elements.drop_first()))
        } else {
            Err(Error::InvalidStructName)
        },
        Err(e) => Err(e),
    }
}

/// What [`Term::deserialize_map`] returns on `t`.
pub open spec fn map_spec(t: Term) -> Result<Shape, Error> {
    match t {
        Term::Mapping(p) => Ok(Shape::Mapping(MapModel { tag: None, remaining: p@, pending: None })),
        _ => Err(Error::ExpectedMap),
    }
}

/// What [`Term::deserialize_struct`] returns on `t`.
pub open spec fn struct_spec(t: Term, name: Seq<char>) -> Result<Shape, Error> {
    match validate_struct_spec(t, Some(name)) {
        Ok(tag) => Ok(
            Shape::Mapping(MapModel { tag: Some(tag), remaining: pairs_of(t), pending: None }),
        ),
        Err(e) => Err(e),
    }
}

/// The variant kind that the shape of `t` shows, with the term that names the
/// variant. An atom, a binary and a number are unit variants named by
/// themselves; a pair is a newtype variant and a longer tuple a tuple variant,
/// both named by their first element; a struct-tagged map is a struct variant
/// named by its tag. No other term is a variant.
pub open spec fn classify_spec(t: Term) -> Option<(EnumDeserializerType, Term)> {
    match t {
        Term::Atom(_) => Some((EnumDeserializerType::Unit, t)),
        Term::Binary(_) => Some((EnumDeserializerType::Unit, t)),
        Term::Integer(_) => Some((EnumDeserializerType::Unit, t)),
        Term::Float(_) => Some((EnumDeserializerType::Unit, t)),
        Term::Tuple(v) => if v@.len() < 2 {
            None
        } else if v@.len() == 2 {
            Some((EnumDeserializerType::Newtype, v@[0]))
        } else {
            Some((EnumDeserializerType::Tuple, v@[0]))
        },
        Term::Mapping(_) => match struct_tag(t) {
            Some(tag) => Some((EnumDeserializerType::Struct, tag)),
            None => None,
        },
        _ => None,
    }
}

/// What [`Term::deserialize_enum`] returns on `t`.
pub open spec fn enum_spec(t: Term, variants: Seq<Seq<char>>) -> Result<Shape, Error> {
    match classify_spec(t) {
        Some((kind, name_term)) => match enum_new_spec(kind, name_term, variants, Some(t)) {
            Ok(m) => Ok(Shape::Variant(m)),
            Err(e) => Err(e),
        },
        None => Err(Error::ExpectedEnum),
    }
}

/// What [`Term::deserialize_identifier`] returns on `t`.
pub open spec fn identifier_spec(t: Term) -> Result<Shape, Error> {
    match t {
        Term::Atom(_) => str_spec(t),
        Term::Binary(_) => str_spec(t),
        Term::Integer(_) => i64_spec(t),
        Term::Float(_) => i64_spec(t),
        _ => Err(Error::ExpectedAtom),
    }
}

/// What [`Term::deserialize_i64`] returns on `t`.
pub open spec fn i64_spec(t: Term) -> Result<Shape, Error> {
    match parse_integer_spec(t, i64::MIN as int, i64::MAX as int) {
        Ok(n) => Ok(Shape::I64(n as i64)),
        Err(e) => Err(e),
    }
}

impl Term {
    /// Decodes the term without a type hint, by its shape alone.
    ///
    /// The atom `nil` is the unit, the atoms `true` and `false` are booleans,
    /// any other atom is its name. A number is read as
    /// [`any_number_spec`] says. A binary is text. A list and a tuple are
    /// sequences of their elements. A map is walked pair by pair, as a tagged
    /// container where it holds a struct tag. Any other term needs a type
    /// hint.
    pub fn deserialize_any<'a>(&'a self) -> (r: Result<Visit<'a>, Error>)
        ensures
            outcome(r, any_spec(*self)),
    {
        match self {
            Term::Atom(_) => {
                if is_nil(self) {
                    self.deserialize_unit()
                } else {
                    match parse_bool(self) {
                        Ok(b) => Ok(Visit::Bool(b)),
                        Err(_) => {
                            let string = term_to_string(self)?;
                            Ok(Visit::Text(string))
                        },
                    }
                }
            },
            Term::Integer(_) | Term::Float(_) => {
                match parse_u64(self) {
                    Ok(n) => {
                        return Ok(Visit::U64(n));
                    },
                    Err(_) => {},
                }
                match parse_i64(self) {
                    Ok(n) => {
                        return Ok(Visit::I64(n));
                    },
                    Err(_) => {},
                }
                match parse_double(self) {
                    Ok(bits) => {
                        return Ok(Visit::F64(bits));
                    },
                    Err(_) => {},
                }
                Err(Error::ExpectedNumber)
            },
            Term::Binary(_) => self.deserialize_str(),
            Term::List(_) => self.deserialize_seq(),
            Term::Mapping(pairs) => {
                let de = match validate_struct(self, None) {
                    Err(_) => MapDeserializer::new(pairs, None),
                    Ok(struct_name_term) => MapDeserializer::new(pairs, Some(struct_name_term)),
                };
                Ok(Visit::Mapping(de))
            },
            Term::Tuple(_) => {
                let tuple = validate_tuple(self, None)?;
                Ok(Visit::Sequence(SequenceDeserializer::new(tuple)))
            },
            _ => Err(Error::TypeHintsRequired),
        }
    }

    /// Decodes the unit: the atom `nil`.
    pub fn deserialize_unit<'a>(&'a self) -> (r: Result<Visit<'a>, Error>)
        ensures
            outcome(r, unit_spec(*self)),
    {
        if is_nil(self) {
            Ok(Visit::Unit)
        } else {
            Err(Error::ExpectedNil)
        }
    }

    /// Decodes a boolean.
    pub fn deserialize_bool<'a>(&'a self) -> (r: Result<Visit<'a>, Error>)
        ensures
            outcome(r, bool_spec(*self)),
    {
        Ok(Visit::Bool(parse_bool(self)?))
    }

    /// Decodes an option: the atom `nil` is the absent value, any other term
    /// is present and still to be decoded. This never fails.
    pub fn deserialize_option<'a>(&'a self) -> (r: Result<Visit<'a>, Error>)
        ensures
            r matches Ok(v) && v@ == option_spec(*self),
    {
        if is_nil(self) {
            Ok(Visit::Absent)
        } else {
            Ok(Visit::Present(self))
        }
    }

    /// Decodes an integer of eight bits, signed.
    pub fn deserialize_i8<'a>(&'a self) -> (r: Result<Visit<'a>, Error>)
        ensures
            match r {
                Ok(v) => v@ matches Shape::I8(n) && parse_integer_spec(
                    *self,
                    i8::MIN as int,
                    i8::MAX as int,
                ) == Ok::<int, Error>(n as int),
                Err(e) => parse_integer_spec(*self, i8::MIN as int, i8::MAX as int) == Err::<
                    int,
                    Error,
                >(e),
            },
    {
        Ok(Visit::I8(parse_i8(self)?))
    }

    /// Decodes an integer of sixteen bits, signed.
    pub fn deserialize_i16<'a>(&'a self) -> (r: Result<Visit<'a>, Error>)
        ensures
            match r {
                Ok(v) => v@ matches Shape::I16(n) && parse_integer_spec(
                    *self,
                    i16::MIN as int,
                    i16::MAX as int,
                ) == Ok::<int, Error>(n as int),
                Err(e) => parse_integer_spec(*self, i16::MIN as int, i16::MAX as int) == Err::<
                    int,
                    Error,
                >(e),
            },
    {
        Ok(Visit::I16(parse_i16(self)?))
    }

    /// Decodes an integer of thirty-two bits, signed.
    pub fn deserialize_i32<'a>(&'a self) -> (r: Result<Visit<'a>, Error>)
        ensures
            match r {
                Ok(v) => v@ matches Shape::I32(n) && parse_integer_spec(
                    *self,
                    i32::MIN as int,
                    i32::MAX as int,
                ) == Ok::<int, Error>(n as int),
                Err(e) => parse_integer_spec(*self, i32::MIN as int, i32::MAX as int) == Err::<
                    int,
                    Error,
                >(e),
            },
    {
        Ok(Visit::I32(parse_i32(self)?))
    }

    /// Decodes an integer of sixty-four bits, signed.
    pub fn deserialize_i64<'a>(&'a self) -> (r: Result<Visit<'a>, Error>)
        ensures
            outcome(r, i64_spec(*self)),
    {
        Ok(Visit::I64(parse_i64(self)?))
    }

    /// Decodes an integer of eight bits, unsigned.
    pub fn deserialize_u8<'a>(&'a self) -> (r: Result<Visit<'a>, Error>)
        ensures
            match r {
                Ok(v) => v@ matches Shape::U8(n) && parse_integer_spec(*self, 0, u8::MAX as int)
                    == Ok::<int, Error>(n as int),
                Err(e) => parse_integer_spec(*self, 0, u8::MAX as int) == Err::<int, Error>(e),
            },
    {
        Ok(Visit::U8(parse_u8(self)?))
    }

    /// Decodes an integer of sixteen bits, unsigned.
    pub fn deserialize_u16<'a>(&'a self) -> (r: Result<Visit<'a>, Error>)
        ensures
            match r {
                Ok(v) => v@ matches Shape::U16(n) && parse_integer_spec(*self, 0, u16::MAX as int)
                    == Ok::<int, Error>(n as int),
                Err(e) => parse_integer_spec(*self, 0, u16::MAX as int) == Err::<int, Error>(e),
            },
    {
        Ok(Visit::U16(parse_u16(self)?))
    }

    /// Decodes an integer of thirty-two bits, unsigned.
    pub fn deserialize_u32<'a>(&'a self) -> (r: Result<Visit<'a>, Error>)
        ensures
            match r {
                Ok(v) => v@ matches Shape::U32(n) && parse_integer_spec(*self, 0, u32::MAX as int)
                    == Ok::<int, Error>(n as int),
                Err(e) => parse_integer_spec(*self, 0, u32::MAX as int) == Err::<int, Error>(e),
            },
    {
        Ok(Visit::U32(parse_u32(self)?))
    }

    /// Decodes an integer of sixty-four bits, unsigned.
    pub fn deserialize_u64<'a>(&'a self) -> (r: Result<Visit<'a>, Error>)
        ensures
            match r {
                Ok(v) => v@ matches Shape::U64(n) && parse_integer_spec(*self, 0, u64::MAX as int)
                    == Ok::<int, Error>(n as int),
                Err(e) => parse_integer_spec(*self, 0, u64::MAX as int) == Err::<int, Error>(e),
            },
    {
        Ok(Visit::U64(parse_u64(self)?))
    }

    /// Decodes a float of thirty-two bits: hands out the bits of the term's
    /// double for the caller to narrow.
    pub fn deserialize_f32<'a>(&'a self) -> (r: Result<Visit<'a>, Error>)
        ensures
            match r {
                Ok(v) => v@ matches Shape::F32(bits) && parse_double_spec(*self) == Ok::<
                    u64,
                    Error,
                >(bits),
                Err(e) => parse_double_spec(*self) == Err::<u64, Error>(e),
            },
    {
        Ok(Visit::F32(parse_double(self)?))
    }

    /// Decodes a float of sixty-four bits: hands out the bits of the term's
    /// double.
    pub fn deserialize_f64<'a>(&'a self) -> (r: Result<Visit<'a>, Error>)
        ensures
            match r {
                Ok(v) => v@ matches Shape::F64(bits) && parse_double_spec(*self) == Ok::<
                    u64,
                    Error,
                >(bits),
                Err(e) => parse_double_spec(*self) == Err::<u64, Error>(e),
            },
    {
        Ok(Visit::F64(parse_double(self)?))
    }

    /// Decodes a character: a list of one code point.
    pub fn deserialize_char<'a>(&'a self) -> (r: Result<Visit<'a>, Error>)
        ensures
            outcome(r, char_spec(*self)),
    {
        match self {
            Term::List(items) => {
                if items.len() != 1 {
                    return Err(Error::ExpectedChar);
                }
                let code = match parse_u32(&items[0]) {
                    Ok(code) => code,
                    Err(_) => {
                        return Err(Error::ExpectedChar);
                    },
                };
                match scalar_char(code) {
                    Some(c) => {
                        proof {
                            char_u32_cast(c, code);
                        }
                        Ok(Visit::Char(c))
                    },
                    None => Err(Error::ExpectedChar),
                }
            },
            _ => Err(Error::ExpectedChar),
        }
    }

    /// Decodes text: lends the text of a binary.
    pub fn deserialize_str<'a>(&'a self) -> (r: Result<Visit<'a>, Error>)
        ensures
            outcome(r, str_spec(*self)),
    {
        Ok(Visit::Str(parse_str(self)?))
    }

    /// Decodes an owned string, as [`Term::deserialize_str`] does.
    pub fn deserialize_string<'a>(&'a self) -> (r: Result<Visit<'a>, Error>)
        ensures
            outcome(r, str_spec(*self)),
    {
        self.deserialize_str()
    }

    /// Decodes bytes: lends the bytes of a binary.
    pub fn deserialize_bytes<'a>(&'a self) -> (r: Result<Visit<'a>, Error>)
        ensures
            outcome(r, bytes_spec(*self)),
    {
        Ok(Visit::Bytes(parse_binary(self)?))
    }

    /// Decodes a byte buffer, as [`Term::deserialize_bytes`] does.
    pub fn deserialize_byte_buf<'a>(&'a self) -> (r: Result<Visit<'a>, Error>)
        ensures
            outcome(r, bytes_spec(*self)),
    {
        Ok(Visit::Bytes(parse_binary(self)?))
    }

    /// Decodes a unit struct, as [`Term::deserialize_unit`] does.
    pub fn deserialize_unit_struct<'a>(&'a self, _name: &str) -> (r: Result<Visit<'a>, Error>)
        ensures
            outcome(r, unit_spec(*self)),
    {
        self.deserialize_unit()
    }

    /// Decodes a named newtype struct: a pair of the name and the payload.
    pub fn deserialize_newtype_struct<'a>(&'a self, name: &str) -> (r: Result<Visit<'a>, Error>)
        ensures
            outcome(r, newtype_struct_spec(*self, name@)),
    {
        let tuple = validate_tuple(self, Some(2))?;
        if !has_name(&tuple[0], name) {
            return Err(Error::InvalidStructName);
        }
        Ok(Visit::Newtype(&tuple[1]))
    }

    /// Decodes a sequence: a cursor over the elements of a list.
    pub fn deserialize_seq<'a>(&'a self) -> (r: Result<Visit<'a>, Error>)
        ensures
            outcome(r, seq_spec(*self)),
    {
        match self {
            Term::List(items) => Ok(Visit::Sequence(SequenceDeserializer::new(items))),
            _ => Err(Error::ExpectedList),
        }
    }

    /// Decodes a tuple of exactly `len` elements: a cursor over them.
    pub fn deserialize_tuple<'a>(&'a self, len: usize) -> (r: Result<Visit<'a>, Error>)
        ensures
            outcome(r, tuple_spec(*self, len as int)),
    {
        let tuple = validate_tuple(self, Some(len))?;
        Ok(Visit::Sequence(SequenceDeserializer::new(tuple)))
    }

    /// Decodes a named tuple struct of `len` fields: a tuple of the name and
    /// the fields; hands out a cursor over the fields.
    pub fn deserialize_tuple_struct<'a>(&'a self, name: &str, len: usize) -> (r: Result<
        Visit<'a>,
        Error,
    >)
        ensures
            outcome(r, tuple_struct_spec(*self, name@, len as int)),
    {
        let tuple = validate_tagged_tuple(self, len)?;
        if !has_name(&tuple[0], name) {
            return Err(Error::InvalidStructName);
        }
        let seq = SequenceDeserializer::starting_at(tuple, 1);
        assert(seq@ =~= tuple@.drop_first());
        Ok(Visit::Sequence(seq))
    }

    /// Decodes an open map: a cursor over the pairs, keys handed out raw.
    pub fn deserialize_map<'a>(&'a self) -> (r: Result<Visit<'a>, Error>)
        ensures
            outcome(r, map_spec(*self)),
    {
        match self {
            Term::Mapping(pairs) => Ok(Visit::Mapping(MapDeserializer::new(pairs, None))),
            _ => Err(Error::ExpectedMap),
        }
    }

    /// Decodes a named struct: a map tagged with `name`; hands out a cursor
    /// over its pairs, keys resolved to names.
    pub fn deserialize_struct<'a>(&'a self, name: &str, _fields: &[&str]) -> (r: Result<
        Visit<'a>,
        Error,
    >)
        ensures
            outcome(r, struct_spec(*self, name@)),
    {
        let struct_name_term = validate_struct(self, Some(name))?;
        match self {
            Term::Mapping(pairs) => Ok(
                Visit::Mapping(MapDeserializer::new(pairs, Some(struct_name_term))),
            ),
            _ => Err(Error::ExpectedStruct),
        }
    }

    /// Classifies the term as an enum variant by its shape.
    pub fn classify_variant<'a>(&'a self) -> (r: Option<(EnumDeserializerType, &'a Term)>)
        ensures
            match r {
                Some((kind, name_term)) => classify_spec(*self) == Some((kind, *name_term)),
                None => classify_spec(*self) is None,
            },
    {
        match self {
            Term::Atom(_) => Some((EnumDeserializerType::Unit, self)),
            Term::Binary(_) => Some((EnumDeserializerType::Unit, self)),
            Term::Integer(_) => Some((EnumDeserializerType::Unit, self)),
            Term::Float(_) => Some((EnumDeserializerType::Unit, self)),
            Term::Tuple(tuple) => {
                if tuple.len() < 2 {
                    None
                } else if tuple.len() == 2 {
                    Some((EnumDeserializerType::Newtype, &tuple[0]))
                } else {
                    Some((EnumDeserializerType::Tuple, &tuple[0]))
                }
            },
            Term::Mapping(_) => match validate_struct(self, None) {
                Ok(struct_name_term) => Some((EnumDeserializerType::Struct, struct_name_term)),
                Err(_) => None,
            },
            _ => None,
        }
    }

    /// Decodes an enum whose legal variant names are `variants`: classifies
    /// the term, checks the name, and hands out the accessor of the variant.
    /// A term that is no variant fails with `ExpectedEnum`.
    pub fn deserialize_enum<'a>(&'a self, _name: &str, variants: &[&str]) -> (r: Result<
        Visit<'a>,
        Error,
    >)
        ensures
            outcome(r, enum_spec(*self, names_of(variants))),
    {
        match self.classify_variant() {
            Some((vtype, term)) => {
                let enum_de = EnumDeserializer::new(vtype, term, variants, Some(self))?;
                Ok(Visit::Variant(enum_de))
            },
            None => Err(Error::ExpectedEnum),
        }
    }

    /// Decodes an identifier: an atom and a binary as text, a number as a
    /// signed integer of sixty-four bits.
    pub fn deserialize_identifier<'a>(&'a self) -> (r: Result<Visit<'a>, Error>)
        ensures
            outcome(r, identifier_spec(*self)),
    {
        match self {
            Term::Atom(_) => self.deserialize_str(),
            Term::Binary(_) => self.deserialize_str(),
            Term::Integer(_) | Term::Float(_) => self.deserialize_i64(),
            _ => Err(Error::ExpectedAtom),
        }
    }

    /// Skips the term: whatever it is, the unit is handed out. This never
    /// fails.
    pub fn deserialize_ignored_any<'a>(&'a self) -> (r: Result<Visit<'a>, Error>)
        ensures
            r matches Ok(v) && v@ == Shape::Unit,
    {
        Ok(Visit::Unit)
    }
}

/// A number that is read without a type hint is unsigned where it fits
/// sixty-four bits unsigned, else signed where it fits sixty-four bits signed,
/// else a double where it is a float. Only the value decides: a positive
/// integer is unsigned however it was made.
pub proof fn lemma_any_number_policy(t: Term)
    requires
        t is Integer || t is Float,
    ensures
        match t {
            Term::Integer(n) => {
                &&& 0 <= n <= u64::MAX ==> any_spec(t) == Ok::<Shape, Error>(Shape::U64(n as u64))
                &&& i64::MIN <= n < 0 ==> any_spec(t) == Ok::<Shape, Error>(Shape::I64(n as i64))
                &&& (n < i64::MIN || n > u64::MAX) ==> any_spec(t) == Err::<Shape, Error>(
                    Error::ExpectedNumber,
                )
            },
            Term::Float(bits) => any_spec(t) == Ok::<Shape, Error>(Shape::F64(bits)),
            _ => true,
        },
{
}

/// Decoding a list as a sequence loses nothing and keeps the order: the
/// cursor hands out exactly the elements of the list, first to last, so a
/// list built from what it hands out has the elements of the list it came
/// from.
pub proof fn lemma_list_round_trip(t: Term)
    requires
        t is List,
    ensures
        seq_spec(t) matches Ok(Shape::Sequence(s)) && t matches Term::List(v) && handed_out(s)
            == v@,
{
    match t {
        Term::List(v) => {
            lemma_sequence_order_preserved(v@);
        },
        _ => {},
    }
}

/// Decoding a tuple of a fixed arity fails exactly where the term is no tuple
/// or has another arity, and where it succeeds the cursor is over all the
/// elements: none is cut off and none is added.
pub proof fn lemma_fixed_tuple_exact(t: Term, len: int)
    ensures
        tuple_spec(t, len) is Err <==> !(t matches Term::Tuple(v) && v@.len() == len),
        t matches Term::Tuple(v) ==> (v@.len() == len ==> tuple_spec(t, len) == Ok::<Shape, Error>(
            Shape::Sequence(v@),
        )),
{
}

/// Every atom, binary and number is a unit variant, every pair a newtype
/// variant, every longer tuple a tuple variant and every struct-tagged map a
/// struct variant. Every other term (a tuple of fewer than two elements, a
/// map without tag, a list, a pid, a reference) is no variant, and decoding
/// it as an enum fails with `ExpectedEnum`; decoding a term that is a variant
/// never does.
pub proof fn lemma_classification_total(t: Term, variants: Seq<Seq<char>>)
    ensures
        (t is Atom || t is Binary || t is Integer || t is Float) ==> classify_spec(t) == Some(
            (EnumDeserializerType::Unit, t),
        ),
        t matches Term::Tuple(v) ==> (v@.len() == 2 ==> classify_spec(t) == Some(
            (EnumDeserializerType::Newtype, v@[0]),
        )),
        t matches Term::Tuple(v) ==> (v@.len() >= 3 ==> classify_spec(t) == Some(
            (EnumDeserializerType::Tuple, v@[0]),
        )),
        t is Mapping ==> (struct_tag(t) matches Some(tag) ==> classify_spec(t) == Some(
            (EnumDeserializerType::Struct, tag),
        )),
        t matches Term::Tuple(v) ==> (v@.len() < 2 ==> classify_spec(t) is None),
        t is Mapping ==> (struct_tag(t) is None ==> classify_spec(t) is None),
        (t is List || t is Pid || t is Ref) ==> classify_spec(t) is None,
        classify_spec(t) is None <==> enum_spec(t, variants) == Err::<Shape, Error>(
            Error::ExpectedEnum,
        ),
{
}

} // verus!
