//! The building blocks of a hand-written codec between a typed value and a
//! term: atoms by name, lookup of a map field, and the map of a named struct.
use vstd::prelude::*;
use vstd::string::*;
use vstd::utf8::*;
use crate::access::held;
use crate::atoms::atom_bytes;
use crate::error::Error;
use crate::term::{is_atom_named, Term};
use crate::util::{parse_bool_spec, parse_integer_spec, parse_str_spec};

verus! {

/// The atom with the given name.
pub fn atom_term(name: &str) -> (r: Term)
    ensures
        r matches Term::Atom(b) && b@ == atom_bytes(name),
{
    Term::Atom(name.as_bytes_vec())
}

/// Two names that differ are the names of two atoms that differ.
pub proof fn lemma_atoms_differ(a: &str, b: &str)
    requires
        a@ != b@,
    ensures
        atom_bytes(a) != atom_bytes(b),
{
    encode_utf8_decode_utf8(a@);
    encode_utf8_decode_utf8(b@);
}

/// The value of the first pair at or after position `i` whose key is the atom
/// with the bytes `key`.
pub open spec fn value_at(pairs: Seq<(Term, Term)>, key: Seq<u8>, i: int) -> Option<Term>
    decreases pairs.len() - i,
{
    if i < 0 || i >= pairs.len() {
        None
    } else if is_atom_named(pairs[i].0, key) {
        Some(pairs[i].1)
    } else {
        value_at(pairs, key, i + 1)
    }
}

/// The value under the atom with the bytes `key` in the map `t`.
pub open spec fn map_get_spec(t: Term, key: Seq<u8>) -> Option<Term> {
    match t {
        Term::Mapping(p) => value_at(p@, key, 0),
        _ => None,
    }
}

/// Looks up the value under the atom `key` in a map. A term that is no map
/// holds no value.
pub fn map_get<'a>(term: &'a Term, key: &str) -> (r: Option<&'a Term>)
    ensures
        held(r) == map_get_spec(*term, atom_bytes(key)),
{
    match term {
        Term::Mapping(pairs) => {
            let mut i: usize = 0;
            while i < pairs.len()
                invariant
                    i <= pairs@.len(),
                    *term == Term::Mapping(*pairs),
                    value_at(pairs@, atom_bytes(key), 0) == value_at(
                        pairs@,
                        atom_bytes(key),
                        i as int,
                    ),
                decreases pairs@.len() - i,
            {
                if pairs[i].0.is_atom_of(key.as_bytes()) {
                    return Some(&pairs[i].1);
                }
                i += 1;
            }
            None
        },
        _ => None,
    }
}

/// What reading `t` as a number of thirty-two bits gives, where there is a
/// term at all.
pub open spec fn i32_of(t: Option<Term>) -> Option<i32> {
    match t {
        Some(x) => match parse_integer_spec(x, i32::MIN as int, i32::MAX as int) {
            Ok(n) => Some(n as i32),
            Err(_) => None,
        },
        None => None,
    }
}

/// What reading `t` as a number of sixty-four bits gives, where there is a
/// term at all.
pub open spec fn i64_of(t: Option<Term>) -> Option<i64> {
    match t {
        Some(x) => match parse_integer_spec(x, i64::MIN as int, i64::MAX as int) {
            Ok(n) => Some(n as i64),
            Err(_) => None,
        },
        None => None,
    }
}

/// Reads an optional term as a number of thirty-two bits.
pub fn read_i32(term: Option<&Term>) -> (r: Option<i32>)
    ensures
        r == i32_of(held(term)),
{
    match term {
        Some(t) => match crate::util::parse_i32(t) {
            Ok(n) => Some(n),
            Err(_) => None,
        },
        None => None,
    }
}

/// Reads an optional term as a number of sixty-four bits.
pub fn read_i64(term: Option<&Term>) -> (r: Option<i64>)
    ensures
        r == i64_of(held(term)),
{
    match term {
        Some(t) => match crate::util::parse_i64(t) {
            Ok(n) => Some(n),
            Err(_) => None,
        },
        None => None,
    }
}

/// What reading `t` as text gives, where there is a term at all.
pub open spec fn text_of(t: Option<Term>) -> Option<Seq<char>> {
    match t {
        Some(x) => match parse_str_spec(x) {
            Ok(s) => Some(s),
            Err(_) => None,
        },
        None => None,
    }
}

/// The view of an optional string.
pub open spec fn opt_string(s: Option<String>) -> Option<Seq<char>> {
    match s {
        Some(x) => Some(x@),
        None => None,
    }
}

/// Reads an optional term as text: the text of a binary.
pub fn read_string(term: Option<&Term>) -> (r: Option<String>)
    ensures
        opt_string(r) == text_of(held(term)),
{
    match term {
        Some(t) => match crate::util::parse_str(t) {
            Ok(s) => Some(s.to_owned()),
            Err(_) => None,
        },
        None => None,
    }
}

/// The binary that holds a text.
pub fn text_term(text: &str) -> (r: Term)
    ensures
        r matches Term::Binary(b) && b@ == text.spec_bytes(),
        parse_str_spec(r) == Ok::<Seq<char>, Error>(text@),
{
    proof {
        encode_utf8_valid_utf8(text@);
        encode_utf8_decode_utf8(text@);
    }
    Term::Binary(text.as_bytes_vec())
}

/// The element at position `i` of a tuple, where there is one.
pub fn element<'a>(items: &'a Vec<Term>, i: usize) -> (r: Option<&'a Term>)
    ensures
        held(r) == if i < items@.len() {
            Some(items@[i as int])
        } else {
            None
        },
{
    if i < items.len() {
        Some(&items[i])
    } else {
        None
    }
}

/// The pairs of the map that stands for a struct of the module `module`: the
/// struct tag with the atom of the module, then the mark of an exception
/// where it is one, then the fields.
pub open spec fn struct_pairs(
    module: Seq<u8>,
    exception: bool,
    fields: Seq<(Term, Term)>,
    out: Seq<(Term, Term)>,
) -> bool {
    let head: int = if exception {
        2
    } else {
        1
    };
    &&& out.len() == head + fields.len()
    &&& is_atom_named(out[0].0, atom_bytes("__struct__"))
    &&& is_atom_named(out[0].1, module)
    &&& exception ==> is_atom_named(out[1].0, atom_bytes("__exception__")) && is_atom_named(
        out[1].1,
        atom_bytes("true"),
    )
    &&& forall|i: int| 0 <= i < fields.len() ==> out[head + i] == fields[i]
}

/// Builds the map of a struct of the module `module` from its field pairs.
pub fn encode_struct(module: &str, exception: bool, fields: Vec<(Term, Term)>) -> (r: Term)
    ensures
        r matches Term::Mapping(p) && struct_pairs(atom_bytes(module), exception, fields@, p@),
{
    let mut fields = fields;
    let ghost given = fields@;
    let mut out: Vec<(Term, Term)> = Vec::new();
    out.push((atom_term("__struct__"), atom_term(module)));
    if exception {
        out.push((atom_term("__exception__"), atom_term("true")));
    }
    out.append(&mut fields);
    Term::Mapping(out)
}

/// Checks that a term is the map of a struct of the module `module`: a map
/// whose struct tag is the atom of the module. A term without struct tag
/// fails with `ExpectedStruct`, one of another module with `InvalidStruct`.
pub fn check_module(term: &Term, module: &str) -> (r: Result<(), Error>)
    ensures
        match map_get_spec(*term, atom_bytes("__struct__")) {
            Some(tag) => if is_atom_named(tag, atom_bytes(module)) {
                r is Ok
            } else {
                r == Err::<(), Error>(Error::InvalidStruct)
            },
            None => r == Err::<(), Error>(Error::ExpectedStruct),
        },
{
    match map_get(term, "__struct__") {
        Some(tag) => if tag.is_atom_of(module.as_bytes()) {
            Ok(())
        } else {
            Err(Error::InvalidStruct)
        },
        None => Err(Error::ExpectedStruct),
    }
}

/// A type whose values are written as terms and read back from them.
pub trait TermCodec<'a>: Sized {
    /// Whether reading `t` gives `v`.
    spec fn decodes_to(t: Term, v: Self) -> bool;

    /// Whether `t` can be read as a value of the type.
    spec fn decodable(t: Term) -> bool;

    /// Reads a value from a term, where the term holds one.
    fn decode(term: &'a Term) -> (r: Option<Self>)
        ensures
            r is Some == Self::decodable(*term),
            r matches Some(v) ==> Self::decodes_to(*term, v),
    ;

    /// Writes the value as a term from which it is read back.
    fn encode(&self) -> (r: Term)
        ensures
            Self::decodable(r),
            Self::decodes_to(r, *self),
    ;
}

impl<'a> TermCodec<'a> for i32 {
    open spec fn decodes_to(t: Term, v: i32) -> bool {
        i32_of(Some(t)) == Some(v)
    }

    open spec fn decodable(t: Term) -> bool {
        i32_of(Some(t)) is Some
    }

    fn decode(term: &'a Term) -> (r: Option<i32>) {
        read_i32(Some(term))
    }

    fn encode(&self) -> (r: Term) {
        Term::Integer(*self as i128)
    }
}

impl<'a> TermCodec<'a> for i64 {
    open spec fn decodes_to(t: Term, v: i64) -> bool {
        i64_of(Some(t)) == Some(v)
    }

    open spec fn decodable(t: Term) -> bool {
        i64_of(Some(t)) is Some
    }

    fn decode(term: &'a Term) -> (r: Option<i64>) {
        read_i64(Some(term))
    }

    fn encode(&self) -> (r: Term) {
        Term::Integer(*self as i128)
    }
}

impl<'a> TermCodec<'a> for usize {
    open spec fn decodes_to(t: Term, v: usize) -> bool {
        parse_integer_spec(t, 0, usize::MAX as int) == Ok::<int, Error>(v as int)
    }

    open spec fn decodable(t: Term) -> bool {
        parse_integer_spec(t, 0, usize::MAX as int) is Ok
    }

    fn decode(term: &'a Term) -> (r: Option<usize>) {
        match crate::util::parse_integer(term, 0, usize::MAX as i128) {
            Ok(n) => Some(n as usize),
            Err(_) => None,
        }
    }

    fn encode(&self) -> (r: Term) {
        Term::Integer(*self as i128)
    }
}

impl<'a> TermCodec<'a> for &'a str {
    open spec fn decodes_to(t: Term, v: &'a str) -> bool {
        parse_str_spec(t) == Ok::<Seq<char>, Error>(v@)
    }

    open spec fn decodable(t: Term) -> bool {
        parse_str_spec(t) is Ok
    }

    fn decode(term: &'a Term) -> (r: Option<&'a str>) {
        match crate::util::parse_str(term) {
            Ok(s) => Some(s),
            Err(_) => None,
        }
    }

    fn encode(&self) -> (r: Term) {
        text_term(*self)
    }
}

impl<'a> TermCodec<'a> for bool {
    open spec fn decodes_to(t: Term, v: bool) -> bool {
        parse_bool_spec(t) == Ok::<bool, Error>(v)
    }

    open spec fn decodable(t: Term) -> bool {
        parse_bool_spec(t) is Ok
    }

    fn decode(term: &'a Term) -> (r: Option<bool>) {
        match crate::util::parse_bool(term) {
            Ok(b) => Some(b),
            Err(_) => None,
        }
    }

    fn encode(&self) -> (r: Term) {
        proof {
            reveal_strlit("true");
            reveal_strlit("false");
            assert("true"@.len() != "false"@.len());
            lemma_atoms_differ("true", "false");
        }
        if *self {
            atom_term("true")
        } else {
            atom_term("false")
        }
    }
}

impl<'a, T: TermCodec<'a>> TermCodec<'a> for Vec<T> {
    open spec fn decodes_to(t: Term, v: Vec<T>) -> bool {
        t matches Term::List(items) && items@.len() == v@.len() && forall|i: int|
            0 <= i < v@.len() ==> T::decodes_to(#[trigger] items@[i], v@[i])
    }

    open spec fn decodable(t: Term) -> bool {
        t matches Term::List(items) && forall|i: int|
            0 <= i < items@.len() ==> T::decodable(#[trigger] items@[i])
    }

    /// Reads a list of values, element by element.
    fn decode(term: &'a Term) -> (r: Option<Vec<T>>) {
        match term {
            Term::List(items) => {
                let mut out: Vec<T> = Vec::new();
                let mut i: usize = 0;
                while i < items.len()
                    invariant
                        *term == Term::List(*items),
                        i <= items@.len(),
                        out@.len() == i,
                        forall|j: int|
                            0 <= j < i ==> T::decodable(#[trigger] items@[j]) && T::decodes_to(
                                items@[j],
                                out@[j],
                            ),
                    decreases items@.len() - i,
                {
                    match T::decode(&items[i]) {
                        Some(v) => {
                            out.push(v);
                        },
                        None => {
                            proof {
                                if Self::decodable(*term) {
                                    assert(*term matches Term::List(l) && l@ == items@);
                                    assert(forall|k: int|
                                        0 <= k < items@.len() ==> T::decodable(
                                            #[trigger] items@[k],
                                        ));
                                    assert(T::decodable(items@[i as int]));
                                }
                            }
                            return None;
                        },
                    }
                    i += 1;
                }
                Some(out)
            },
            _ => None,
        }
    }

    /// Writes the values as a list, in order.
    fn encode(&self) -> (r: Term) {
        let mut items: Vec<Term> = Vec::new();
        let mut i: usize = 0;
        while i < self.len()
            invariant
                i <= self@.len(),
                items@.len() == i,
                forall|j: int|
                    0 <= j < i ==> T::decodable(#[trigger] items@[j]) && T::decodes_to(
                        items@[j],
                        self@[j],
                    ),
            decreases self@.len() - i,
        {
            items.push(self[i].encode());
            i += 1;
        }
        Term::List(items)
    }
}

} // verus!
