//! The primitive decoders: what a single term holds when it is read as a
//! number, a boolean, text, bytes, a tuple or a tagged map.
use vstd::prelude::*;
use vstd::string::*;
use vstd::utf8::*;
use crate::atoms::{atom_bytes, atom_name, text_outcome};
use crate::error::Error;
use crate::term::{is_atom_named, Term};
use crate::text::{integer_text, render_integer, str_eq, utf8_text};

verus! {

/// Whether `t` is the atom `nil`.
pub open spec fn is_nil_spec(t: Term) -> bool {
    is_atom_named(t, atom_bytes("nil"))
}

/// Whether the term is the atom `nil`.
pub fn is_nil(term: &Term) -> (r: bool)
    ensures
        r == is_nil_spec(*term),
{
    term.is_atom_of("nil".as_bytes())
}

/// What [`parse_bool`] returns on `t`.
pub open spec fn parse_bool_spec(t: Term) -> Result<bool, Error> {
    if is_atom_named(t, atom_bytes("true")) {
        Ok(true)
    } else if is_atom_named(t, atom_bytes("false")) {
        Ok(false)
    } else {
        Err(Error::ExpectedBoolean)
    }
}

/// Reads the atoms `true` and `false` as booleans; any other term fails with
/// `ExpectedBoolean`.
pub fn parse_bool(term: &Term) -> (r: Result<bool, Error>)
    ensures
        r == parse_bool_spec(*term),
{
    if term.is_atom_of("true".as_bytes()) {
        Ok(true)
    } else if term.is_atom_of("false".as_bytes()) {
        Ok(false)
    } else {
        Err(Error::ExpectedBoolean)
    }
}

/// What reading `t` as an integer between `lo` and `hi` gives: the value of an
/// integer term in that range; `InvalidNumber` for a number that is no integer
/// in that range; `ExpectedNumber` for a term that is no number.
pub open spec fn parse_integer_spec(t: Term, lo: int, hi: int) -> Result<int, Error> {
    match t {
        Term::Integer(n) => if lo <= n <= hi {
            Ok(n as int)
        } else {
            Err(Error::InvalidNumber)
        },
        Term::Float(_) => Err(Error::InvalidNumber),
        _ => Err(Error::ExpectedNumber),
    }
}

/// Reads an integer term whose value lies between `lo` and `hi`.
pub fn parse_integer(term: &Term, lo: i128, hi: i128) -> (r: Result<i128, Error>)
    ensures
        match r {
            Ok(n) => parse_integer_spec(*term, lo as int, hi as int) == Ok::<int, Error>(n as int),
            Err(e) => parse_integer_spec(*term, lo as int, hi as int) == Err::<int, Error>(e),
        },
{
    match term {
        Term::Integer(n) => if lo <= *n && *n <= hi {
            Ok(*n)
        } else {
            Err(Error::InvalidNumber)
        },
        Term::Float(_) => Err(Error::InvalidNumber),
        _ => Err(Error::ExpectedNumber),
    }
}

/// Reads an integer term that fits eight bits, signed.
pub fn parse_i8(term: &Term) -> (r: Result<i8, Error>)
    ensures
        match r {
            Ok(n) => parse_integer_spec(*term, i8::MIN as int, i8::MAX as int) == Ok::<int, Error>(n as int),
            Err(e) => parse_integer_spec(*term, i8::MIN as int, i8::MAX as int) == Err::<int, Error>(e),
        },
{
    match parse_integer(term, -128, 127) {
        Ok(n) => Ok(n as i8),
        Err(e) => Err(e),
    }
}

/// Reads an integer term that fits sixteen bits, signed.
pub fn parse_i16(term: &Term) -> (r: Result<i16, Error>)
    ensures
        match r {
            Ok(n) => parse_integer_spec(*term, i16::MIN as int, i16::MAX as int) == Ok::<int, Error>(n as int),
            Err(e) => parse_integer_spec(*term, i16::MIN as int, i16::MAX as int) == Err::<int, Error>(e),
        },
{
    match parse_integer(term, -32768, 32767) {
        Ok(n) => Ok(n as i16),
        Err(e) => Err(e),
    }
}

/// Reads an integer term that fits thirty-two bits, signed.
pub fn parse_i32(term: &Term) -> (r: Result<i32, Error>)
    ensures
        match r {
            Ok(n) => parse_integer_spec(*term, i32::MIN as int, i32::MAX as int) == Ok::<int, Error>(n as int),
            Err(e) => parse_integer_spec(*term, i32::MIN as int, i32::MAX as int) == Err::<int, Error>(e),
        },
{
    match parse_integer(term, -2147483648, 2147483647) {
        Ok(n) => Ok(n as i32),
        Err(e) => Err(e),
    }
}

/// Reads an integer term that fits sixty-four bits, signed.
pub fn parse_i64(term: &Term) -> (r: Result<i64, Error>)
    ensures
        match r {
            Ok(n) => parse_integer_spec(*term, i64::MIN as int, i64::MAX as int) == Ok::<int, Error>(n as int),
            Err(e) => parse_integer_spec(*term, i64::MIN as int, i64::MAX as int) == Err::<int, Error>(e),
        },
{
    match parse_integer(term, -9223372036854775808, 9223372036854775807) {
        Ok(n) => Ok(n as i64),
        Err(e) => Err(e),
    }
}

/// Reads an integer term that fits eight bits, unsigned.
pub fn parse_u8(term: &Term) -> (r: Result<u8, Error>)
    ensures
        match r {
            Ok(n) => parse_integer_spec(*term, 0, u8::MAX as int) == Ok::<int, Error>(n as int),
            Err(e) => parse_integer_spec(*term, 0, u8::MAX as int) == Err::<int, Error>(e),
        },
{
    match parse_integer(term, 0, 255) {
        Ok(n) => Ok(n as u8),
        Err(e) => Err(e),
    }
}

/// Reads an integer term that fits sixteen bits, unsigned.
pub fn parse_u16(term: &Term) -> (r: Result<u16, Error>)
    ensures
        match r {
            Ok(n) => parse_integer_spec(*term, 0, u16::MAX as int) == Ok::<int, Error>(n as int),
            Err(e) => parse_integer_spec(*term, 0, u16::MAX as int) == Err::<int, Error>(e),
        },
{
    match parse_integer(term, 0, 65535) {
        Ok(n) => Ok(n as u16),
        Err(e) => Err(e),
    }
}

/// Reads an integer term that fits thirty-two bits, unsigned.
pub fn parse_u32(term: &Term) -> (r: Result<u32, Error>)
    ensures
        match r {
            Ok(n) => parse_integer_spec(*term, 0, u32::MAX as int) == Ok::<int, Error>(n as int),
            Err(e) => parse_integer_spec(*term, 0, u32::MAX as int) == Err::<int, Error>(e),
        },
{
    match parse_integer(term, 0, 4294967295) {
        Ok(n) => Ok(n as u32),
        Err(e) => Err(e),
    }
}

/// Reads an integer term that fits sixty-four bits, unsigned.
pub fn parse_u64(term: &Term) -> (r: Result<u64, Error>)
    ensures
        match r {
            Ok(n) => parse_integer_spec(*term, 0, u64::MAX as int) == Ok::<int, Error>(n as int),
            Err(e) => parse_integer_spec(*term, 0, u64::MAX as int) == Err::<int, Error>(e),
        },
{
    match parse_integer(term, 0, 18446744073709551615) {
        Ok(n) => Ok(n as u64),
        Err(e) => Err(e),
    }
}

/// What [`parse_double`] returns on `t`.
pub open spec fn parse_double_spec(t: Term) -> Result<u64, Error> {
    match t {
        Term::Float(bits) => Ok(bits),
        Term::Integer(_) => Err(Error::InvalidNumber),
        _ => Err(Error::ExpectedNumber),
    }
}

/// Reads a float term and returns the bit pattern of its double. An integer
/// term fails with `InvalidNumber`, any other term with `ExpectedNumber`.
pub fn parse_double(term: &Term) -> (r: Result<u64, Error>)
    ensures
        r == parse_double_spec(*term),
{
    match term {
        Term::Float(bits) => Ok(*bits),
        Term::Integer(_) => Err(Error::InvalidNumber),
        _ => Err(Error::ExpectedNumber),
    }
}

/// Reads a binary term and lends its bytes; any other term fails with
/// `ExpectedBinary`.
pub fn parse_binary<'a>(term: &'a Term) -> (r: Result<&'a [u8], Error>)
    ensures
        match r {
            Ok(b) => *term matches Term::Binary(v) && b@ == v@,
            Err(e) => !(*term is Binary) && e == Error::ExpectedBinary,
        },
{
    match term {
        Term::Binary(v) => Ok(v.as_slice()),
        _ => Err(Error::ExpectedBinary),
    }
}

/// What [`parse_str`] returns on `t`.
pub open spec fn parse_str_spec(t: Term) -> Result<Seq<char>, Error> {
    match t {
        Term::Binary(v) => if valid_utf8(v@) {
            Ok(decode_utf8(v@))
        } else {
            Err(Error::ExpectedStringable)
        },
        _ => Err(Error::ExpectedBinary),
    }
}

/// Reads a binary term as text and lends it. A binary that is not
/// well-formed UTF-8 fails with `ExpectedStringable`, a term that is no
/// binary with `ExpectedBinary`.
pub fn parse_str<'a>(term: &'a Term) -> (r: Result<&'a str, Error>)
    ensures
        match r {
            Ok(s) => parse_str_spec(*term) == Ok::<Seq<char>, Error>(s@),
            Err(e) => parse_str_spec(*term) == Err::<Seq<char>, Error>(e),
        },
{
    match term {
        Term::Binary(v) => match utf8_text(v.as_slice()) {
            Some(s) => Ok(s),
            None => Err(Error::ExpectedStringable),
        },
        _ => Err(Error::ExpectedBinary),
    }
}

/// The name that `t` resolves to. An atom resolves to its name, with
/// `InvalidVariantName` where it has none; a binary to its text; an integer to
/// its decimal rendering. A float, and a term of any other shape, is not
/// name-representable.
pub open spec fn name_of(t: Term) -> Result<Seq<char>, Error> {
    match t {
        Term::Atom(b) => match atom_name(b@) {
            Ok(s) => Ok(s),
            Err(_) => Err(Error::InvalidVariantName),
        },
        Term::Binary(v) => if valid_utf8(v@) {
            Ok(decode_utf8(v@))
        } else {
            Err(Error::ExpectedStringable)
        },
        Term::Integer(n) => Ok(integer_text(n as int)),
        _ => Err(Error::ExpectedStringable),
    }
}

/// Resolves a term to a name.
pub fn term_to_str(term: &Term) -> (r: Result<String, Error>)
    ensures
        text_outcome(r, name_of(*term)),
{
    match term {
        Term::Atom(_) => match crate::atoms::term_to_string(term) {
            Ok(s) => Ok(s),
            Err(_) => Err(Error::InvalidVariantName),
        },
        Term::Binary(v) => match utf8_text(v.as_slice()) {
            Some(s) => Ok(s.to_owned()),
            None => Err(Error::ExpectedStringable),
        },
        Term::Integer(n) => Ok(render_integer(*n)),
        _ => Err(Error::ExpectedStringable),
    }
}

/// Whether `t` resolves to the name `name`.
pub open spec fn is_named(t: Term, name: Seq<char>) -> bool {
    name_of(t) == Ok::<Seq<char>, Error>(name)
}

/// Whether the term resolves to the given name.
pub fn has_name(term: &Term, name: &str) -> (r: bool)
    ensures
        r == is_named(*term, name@),
{
    match term_to_str(term) {
        Ok(s) => str_eq(s.as_str(), name),
        Err(_) => false,
    }
}

/// What [`validate_tuple`] returns on `t`: the elements of a tuple whose arity
/// is the expected one, where one is given. A tuple of another arity fails
/// with `InvalidTuple`, a term that is no tuple with `ExpectedTuple`.
pub open spec fn validate_tuple_spec(t: Term, expected_len: Option<int>) -> Result<
    Seq<Term>,
    Error,
> {
    match t {
        Term::Tuple(v) => match expected_len {
            Some(n) if n != v@.len() => Err(Error::InvalidTuple),
            _ => Ok(v@),
        },
        _ => Err(Error::ExpectedTuple),
    }
}

/// The expected arity as a number.
pub open spec fn opt_len(expected_len: Option<usize>) -> Option<int> {
    match expected_len {
        Some(n) => Some(n as int),
        None => None,
    }
}

/// Checks that the term is a tuple, of the expected arity where one is given,
/// and lends its elements.
pub fn validate_tuple<'a>(term: &'a Term, expected_len: Option<usize>) -> (r: Result<
    &'a Vec<Term>,
    Error,
>)
    ensures
        match r {
            Ok(v) => validate_tuple_spec(*term, opt_len(expected_len)) == Ok::<Seq<Term>, Error>(
                v@,
            ) && *term == Term::Tuple(*v),
            Err(e) => validate_tuple_spec(*term, opt_len(expected_len)) == Err::<Seq<Term>, Error>(
                e,
            ),
        },
{
    match term {
        Term::Tuple(v) => match expected_len {
            Some(n) => if n != v.len() {
                Err(Error::InvalidTuple)
            } else {
                Ok(v)
            },
            None => Ok(v),
        },
        _ => Err(Error::ExpectedTuple),
    }
}

/// Checks that the term is a tuple of one element more than `len`, a name
/// followed by `len` payload elements, and lends its elements.
pub fn validate_tagged_tuple<'a>(term: &'a Term, len: usize) -> (r: Result<&'a Vec<Term>, Error>)
    ensures
        match r {
            Ok(v) => validate_tuple_spec(*term, Some(len + 1)) == Ok::<Seq<Term>, Error>(v@)
                && *term == Term::Tuple(*v),
            Err(e) => validate_tuple_spec(*term, Some(len + 1)) == Err::<Seq<Term>, Error>(e),
        },
{
    if len == usize::MAX {
        match validate_tuple(term, None) {
            Ok(v) => {
                let arity: usize = v.len();
                assert(arity as int != len + 1);
                Err(Error::InvalidTuple)
            },
            Err(e) => Err(e),
        }
    } else {
        validate_tuple(term, Some(len + 1))
    }
}

/// Whether `t` is the reserved key that marks a map as a named struct.
pub open spec fn is_struct_key(t: Term) -> bool {
    is_atom_named(t, atom_bytes("__struct__"))
}

/// Whether the term is the reserved struct-tag key.
pub fn is_struct_tag_key(term: &Term) -> (r: bool)
    ensures
        r == is_struct_key(*term),
{
    term.is_atom_of("__struct__".as_bytes())
}

/// The value of the first pair at or after position `i` whose key is the
/// struct tag.
pub open spec fn tag_from(pairs: Seq<(Term, Term)>, i: int) -> Option<Term>
    decreases pairs.len() - i,
{
    if i < 0 || i >= pairs.len() {
        None
    } else if is_struct_key(pairs[i].0) {
        Some(pairs[i].1)
    } else {
        tag_from(pairs, i + 1)
    }
}

/// The struct tag of `t`: the value under the reserved key, where `t` is a map
/// that has that key.
pub open spec fn struct_tag(t: Term) -> Option<Term> {
    match t {
        Term::Mapping(p) => tag_from(p@, 0),
        _ => None,
    }
}

/// What [`validate_struct`] returns on `t`: the tag of a struct-tagged map,
/// where its name is the expected one if one is given. A term that is no map
/// fails with `ExpectedMap`, a map without tag with `ExpectedStruct`, a tag
/// that does not resolve to the expected name with `InvalidStructName`.
pub open spec fn validate_struct_spec(t: Term, expected: Option<Seq<char>>) -> Result<
    Term,
    Error,
> {
    match t {
        Term::Mapping(_) => match struct_tag(t) {
            None => Err(Error::ExpectedStruct),
            Some(tag) => match expected {
                Some(name) if !is_named(tag, name) => Err(Error::InvalidStructName),
                _ => Ok(tag),
            },
        },
        _ => Err(Error::ExpectedMap),
    }
}

/// The view of an optional string.
pub open spec fn opt_text(name: Option<&str>) -> Option<Seq<char>> {
    match name {
        Some(s) => Some(s@),
        None => None,
    }
}

/// Checks that the term is a struct-tagged map, named as expected where a
/// name is given, and lends the tag.
pub fn validate_struct<'a>(term: &'a Term, expected: Option<&str>) -> (r: Result<&'a Term, Error>)
    ensures
        match r {
            Ok(tag) => validate_struct_spec(*term, opt_text(expected)) == Ok::<Term, Error>(*tag),
            Err(e) => validate_struct_spec(*term, opt_text(expected)) == Err::<Term, Error>(e),
        },
{
    match term {
        Term::Mapping(pairs) => {
            let mut i: usize = 0;
            while i < pairs.len()
                invariant
                    i <= pairs@.len(),
                    *term == Term::Mapping(*pairs),
                    tag_from(pairs@, 0) == tag_from(pairs@, i as int),
                decreases pairs@.len() - i,
            {
                if is_struct_tag_key(&pairs[i].0) {
                    let tag = &pairs[i].1;
                    match expected {
                        Some(name) => {
                            if has_name(tag, name) {
                                return Ok(tag);
                            } else {
                                return Err(Error::InvalidStructName);
                            }
                        },
                        None => {
                            return Ok(tag);
                        },
                    }
                }
                i += 1;
            }
            Err(Error::ExpectedStruct)
        },
        _ => Err(Error::ExpectedMap),
    }
}

} // verus!
