//! Conversion between atoms and the names they stand for.
use vstd::prelude::*;
use vstd::string::*;
use vstd::utf8::*;
use crate::atom::{Atom, AtomTable};
use crate::error::Error;
use crate::term::Term;
use crate::text::utf8_text;

verus! {

/// The bytes of the atom that is written `name`.
pub open spec fn atom_bytes(name: &str) -> Seq<u8> {
    name.spec_bytes()
}

/// The name that the atom with the bytes `b` stands for: the success and
/// failure atoms have fixed names, any other atom is named by its own text.
pub open spec fn atom_name(b: Seq<u8>) -> Result<Seq<char>, Error> {
    if b == atom_bytes("ok") {
        Ok("Ok"@)
    } else if b == atom_bytes("error") {
        Ok("Err"@)
    } else if valid_utf8(b) {
        Ok(decode_utf8(b))
    } else {
        Err(Error::InvalidAtom)
    }
}

/// What [`term_to_string`] returns on `t`.
pub open spec fn term_to_string_spec(t: Term) -> Result<Seq<char>, Error> {
    match t {
        Term::Atom(b) => atom_name(b@),
        _ => Err(Error::InvalidStringable),
    }
}

/// Whether the outcome `r` is the outcome `m` of the model.
pub open spec fn text_outcome(r: Result<String, Error>, m: Result<Seq<char>, Error>) -> bool {
    match r {
        Ok(s) => m == Ok::<Seq<char>, Error>(s@),
        Err(e) => m == Err::<Seq<char>, Error>(e),
    }
}

/// The name of an atom term. The atom `ok` is named `Ok` and the atom `error`
/// is named `Err`; any other atom is named by its text, and fails with
/// `InvalidAtom` where its bytes are no text. A term that is no atom fails
/// with `InvalidStringable`.
pub fn term_to_string(term: &Term) -> (r: Result<String, Error>)
    ensures
        text_outcome(r, term_to_string_spec(*term)),
{
    match term {
        Term::Atom(b) => {
            if term.is_atom_of("ok".as_bytes()) {
                Ok("Ok".to_owned())
            } else if term.is_atom_of("error".as_bytes()) {
                Ok("Err".to_owned())
            } else {
                match utf8_text(b.as_slice()) {
                    Some(s) => Ok(s.to_owned()),
                    None => Err(Error::InvalidAtom),
                }
            }
        },
        _ => Err(Error::InvalidStringable),
    }
}

/// The bytes of the atom that the name `s` stands for: `Ok` is the atom `ok`,
/// `Err` is the atom `error`, any other name is the atom with that text.
pub open spec fn name_atom(s: Seq<char>) -> Seq<u8> {
    if s == "Ok"@ {
        atom_bytes("ok")
    } else if s == "Err"@ {
        atom_bytes("error")
    } else {
        encode_utf8(s)
    }
}

/// Whether the name `s` stands for an atom that exists: the two sentinel
/// atoms always do, any other atom where `table` holds it.
pub open spec fn names_existing_atom(table: Seq<Seq<u8>>, s: Seq<char>) -> bool {
    s == "Ok"@ || s == "Err"@ || table.contains(encode_utf8(s))
}

/// The atom that a name stands for, where that atom exists already: `Ok` is
/// the atom `ok`, `Err` is the atom `error`, any other name is the atom with
/// that text if `table` holds it. A name whose atom does not exist fails with
/// `InvalidStringable`; no atom is made.
pub fn str_to_term(table: &AtomTable, string: &str) -> (r: Result<Term, Error>)
    ensures
        names_existing_atom(table@, string@) ==> (r matches Ok(Term::Atom(b)) && b@ == name_atom(
            string@,
        )),
        !names_existing_atom(table@, string@) ==> (r matches Err(e) && e
            == Error::InvalidStringable),
{
    if crate::text::str_eq(string, "Ok") {
        Ok(Term::Atom("ok".as_bytes_vec()))
    } else if crate::text::str_eq(string, "Err") {
        Ok(Term::Atom("error".as_bytes_vec()))
    } else {
        match Atom::new_existing(table, string) {
            Some(_) => Ok(Term::Atom(string.as_bytes_vec())),
            None => Err(Error::InvalidStringable),
        }
    }
}

/// The atom that a name stands for is named as that name, unless the name is
/// `ok` or `error`: these are the texts of the two sentinel atoms, which are
/// named `Ok` and `Err`.
pub proof fn lemma_name_atom_round_trip(s: Seq<char>)
    requires
        s != "ok"@,
        s != "error"@,
    ensures
        atom_name(name_atom(s)) == Ok::<Seq<char>, Error>(s),
{
    encode_utf8_decode_utf8(s);
    encode_utf8_decode_utf8("ok"@);
    encode_utf8_decode_utf8("error"@);
    encode_utf8_valid_utf8(s);
    reveal_strlit("ok");
    reveal_strlit("error");
    reveal_strlit("Ok");
    reveal_strlit("Err");
    if s == "Ok"@ {
    } else if s == "Err"@ {
        assert("ok"@.len() != "error"@.len());
    } else {
    }
}

} // verus!
