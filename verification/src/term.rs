//! The term model: a closed tagged union over the shapes a runtime value can have.
use vstd::prelude::*;

verus! {

/// The shape of a term.
#[derive(Clone, Copy, Debug, PartialEq, Eq, Structural)]
pub enum TermType {
    Atom,
    Binary,
    EmptyList,
    List,
    Mapping,
    Number,
    Pid,
    Ref,
    Tuple,
}

/// A runtime value.
///
/// An atom holds the bytes of its name. An integer holds its value; a float
/// holds the bit pattern of its IEEE 754 double. A list with no element is the
/// empty list. A map holds its pairs in the order in which the runtime walks
/// them. A pid and a reference hold an identifier and nothing else.
#[derive(Debug)]
pub enum Term {
    Atom(Vec<u8>),
    Integer(i128),
    Float(u64),
    Binary(Vec<u8>),
    List(Vec<Term>),
    Tuple(Vec<Term>),
    Mapping(Vec<(Term, Term)>),
    Pid(u64),
    Ref(u64),
}

/// The shape of `t`.
pub open spec fn type_of(t: Term) -> TermType {
    match t {
        Term::Atom(_) => TermType::Atom,
        Term::Integer(_) => TermType::Number,
        Term::Float(_) => TermType::Number,
        Term::Binary(_) => TermType::Binary,
        Term::List(v) => if v@.len() == 0 {
            TermType::EmptyList
        } else {
            TermType::List
        },
        Term::Tuple(_) => TermType::Tuple,
        Term::Mapping(_) => TermType::Mapping,
        Term::Pid(_) => TermType::Pid,
        Term::Ref(_) => TermType::Ref,
    }
}

/// Whether `t` is the atom whose name is `name`.
pub open spec fn is_atom_named(t: Term, name: Seq<u8>) -> bool {
    t matches Term::Atom(b) && b@ == name
}

/// Compares two byte strings.
pub fn bytes_eq(a: &[u8], b: &[u8]) -> (r: bool)
    ensures
        r == (a@ == b@),
{
    if a.len() != b.len() {
        return false;
    }
    let mut i: usize = 0;
    while i < a.len()
        invariant
            a@.len() == b@.len(),
            i <= a@.len(),
            forall|j: int| 0 <= j < i ==> a@[j] == b@[j],
        decreases a@.len() - i,
    {
        if a[i] != b[i] {
            return false;
        }
        i += 1;
    }
    assert(a@ =~= b@);
    true
}

impl Term {
    /// Classifies the term.
    pub fn get_type(&self) -> (r: TermType)
        ensures
            r == type_of(*self),
    {
        match self {
            Term::Atom(_) => TermType::Atom,
            Term::Integer(_) => TermType::Number,
            Term::Float(_) => TermType::Number,
            Term::Binary(_) => TermType::Binary,
            Term::List(v) => if v.len() == 0 {
                TermType::EmptyList
            } else {
                TermType::List
            },
            Term::Tuple(_) => TermType::Tuple,
            Term::Mapping(_) => TermType::Mapping,
            Term::Pid(_) => TermType::Pid,
            Term::Ref(_) => TermType::Ref,
        }
    }

    /// Whether the term is an atom.
    pub fn is_atom(&self) -> (r: bool)
        ensures
            r == (type_of(*self) == TermType::Atom),
    {
        match self {
            Term::Atom(_) => true,
            _ => false,
        }
    }

    /// Whether the term is the atom with the given name.
    pub fn is_atom_of(&self, name: &[u8]) -> (r: bool)
        ensures
            r == is_atom_named(*self, name@),
    {
        match self {
            Term::Atom(b) => bytes_eq(b.as_slice(), name),
            _ => false,
        }
    }
}

} // verus!
