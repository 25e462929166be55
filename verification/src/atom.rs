//! Interned atoms: a table of names, and atoms as positions in it.
use vstd::prelude::*;
use vstd::string::*;
use crate::string_or_bin::StringOrBin;

verus! {

/// An atom: the position of its name in the table that interned it.
#[derive(Clone, Copy, Debug, PartialEq, Eq, Structural)]
pub struct Atom(pub usize);

/// The table of interned names. No name stands in it twice, so an atom and
/// its name determine each other.
pub struct AtomTable {
    atoms: Vec<StringOrBin>,
}

impl View for AtomTable {
    type V = Seq<Seq<u8>>;

    /// The names in the table, by position.
    closed spec fn view(&self) -> Seq<Seq<u8>> {
        self.atoms@.map_values(|s: StringOrBin| s@)
    }
}

/// Whether no name occurs twice in `names`.
pub open spec fn distinct(names: Seq<Seq<u8>>) -> bool {
    forall|i: int, j: int| 0 <= i < j < names.len() ==> names[i] != names[j]
}

impl AtomTable {
    /// Whether the table is well formed: no name stands in it twice.
    pub open spec fn wf(&self) -> bool {
        distinct(self@)
    }

    /// The empty table.
    pub fn new() -> (r: Self)
        ensures
            r@.len() == 0,
            r.wf(),
    {
        AtomTable { atoms: Vec::new() }
    }

    /// How many atoms the table holds.
    pub fn len(&self) -> (r: usize)
        ensures
            r == self@.len(),
    {
        self.atoms.len()
    }

    /// The name of an atom of this table.
    pub fn name(&self, atom: Atom) -> (r: Option<&[u8]>)
        ensures
            atom.0 < self@.len() ==> (r matches Some(b) && b@ == self@[atom.0 as int]),
            atom.0 >= self@.len() ==> r is None,
    {
        if atom.0 < self.atoms.len() {
            Some(self.atoms[atom.0].as_bytes())
        } else {
            None
        }
    }

    /// The position of `bin` in the table, where it stands there.
    fn find(&self, bin: &[u8]) -> (r: Option<usize>)
        ensures
            match r {
                Some(i) => i < self@.len() && self@[i as int] == bin@,
                None => !self@.contains(bin@),
            },
    {
        let mut i: usize = 0;
        while i < self.atoms.len()
            invariant
                i <= self.atoms@.len(),
                forall|j: int| 0 <= j < i ==> self@[j] != bin@,
            decreases self.atoms@.len() - i,
        {
            if crate::term::bytes_eq(self.atoms[i].as_bytes(), bin) {
                return Some(i);
            }
            i += 1;
        }
        None
    }
}

impl Atom {
    /// The atom with the given name: the one the table holds, or a new one at
    /// its end.
    pub fn new(table: &mut AtomTable, string: &str) -> (r: Self)
        requires
            old(table).wf(),
        ensures
            final(table).wf(),
            r.0 < final(table)@.len(),
            final(table)@[r.0 as int] == string.spec_bytes(),
            old(table)@.contains(string.spec_bytes()) ==> final(table)@ == old(table)@,
            !old(table)@.contains(string.spec_bytes()) ==> final(table)@ == old(table)@.push(
                string.spec_bytes(),
            ),
    {
        Atom::new_bytes(table, string.as_bytes())
    }

    /// The atom whose name is the given bytes: the one the table holds, or a
    /// new one at its end.
    pub fn new_bytes(table: &mut AtomTable, bin: &[u8]) -> (r: Self)
        requires
            old(table).wf(),
        ensures
            final(table).wf(),
            r.0 < final(table)@.len(),
            final(table)@[r.0 as int] == bin@,
            old(table)@.contains(bin@) ==> final(table)@ == old(table)@,
            !old(table)@.contains(bin@) ==> final(table)@ == old(table)@.push(bin@),
    {
        match table.find(bin) {
            Some(i) => Atom(i),
            None => {
                let sob = StringOrBin::from_bytes(bin);
                let atom = Atom(table.atoms.len());
                table.atoms.push(sob);
                assert(table@ =~= old(table)@.push(bin@));
                atom
            },
        }
    }

    /// The atom with the given name, where the table holds it.
    pub fn new_existing(table: &AtomTable, string: &str) -> (r: Option<Self>)
        ensures
            r is Some == table@.contains(string.spec_bytes()),
            r matches Some(a) ==> a.0 < table@.len() && table@[a.0 as int] == string.spec_bytes(),
    {
        Atom::new_bytes_existing(table, string.as_bytes())
    }

    /// The atom whose name is the given bytes, where the table holds it.
    pub fn new_bytes_existing(table: &AtomTable, bin: &[u8]) -> (r: Option<Self>)
        ensures
            r is Some == table@.contains(bin@),
            r matches Some(a) ==> a.0 < table@.len() && table@[a.0 as int] == bin@,
    {
        match table.find(bin) {
            Some(i) => Some(Atom(i)),
            None => None,
        }
    }
}

/// The word that stands for the atom at position `index`: the position moved
/// up by one bit, with the lowest bit set. A position that does not fit the
/// remaining bits loses its highest bit.
pub open spec fn packed_atom(index: usize) -> usize {
    1usize | (index << 1usize)
}

/// The atom that the word `word` stands for, where its lowest bit is set.
pub open spec fn unpacked_atom(word: usize) -> Option<Atom> {
    if word & 1usize == 1usize {
        Some(Atom(word >> 1usize))
    } else {
        None
    }
}

impl Atom {
    /// Packs the atom into a word.
    pub fn pack(&self) -> (r: usize)
        ensures
            r == packed_atom(self.0),
    {
        1usize | (self.0 << 1usize)
    }

    /// Unpacks the atom that a word stands for; a word whose lowest bit is
    /// clear stands for no atom.
    pub fn unpack(word: usize) -> (r: Option<Atom>)
        ensures
            r == unpacked_atom(word),
    {
        if word & 1usize == 1usize {
            Some(Atom(word >> 1usize))
        } else {
            None
        }
    }
}

/// An atom whose position leaves the highest bit of a word free comes back
/// from the word it was packed into, and the word of an atom is never the
/// word of anything else.
pub proof fn lemma_pack_round_trip(a: Atom)
    ensures
        unpacked_atom(packed_atom(a.0)) is Some,
        (a.0 << 1usize) >> 1usize == a.0 ==> unpacked_atom(packed_atom(a.0)) == Some(a),
{
    let index: usize = a.0;
    assert((1usize | (index << 1usize)) & 1usize == 1usize) by (bit_vector);
    assert((index << 1usize) >> 1usize == index ==> (1usize | (index << 1usize)) >> 1usize
        == index) by (bit_vector);
}

/// In a well-formed table an atom is determined by its name.
pub proof fn lemma_atom_by_name_unique(names: Seq<Seq<u8>>, a: Atom, b: Atom)
    requires
        distinct(names),
        a.0 < names.len(),
        b.0 < names.len(),
        names[a.0 as int] == names[b.0 as int],
    ensures
        a == b,
{
    if a.0 < b.0 {
        assert(names[a.0 as int] != names[b.0 as int]);
    } else if b.0 < a.0 {
        assert(names[b.0 as int] != names[a.0 as int]);
    }
}

} // verus!
