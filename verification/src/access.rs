//! The cursors that walk a sequence of terms and the pairs of a map.
use vstd::prelude::*;
use crate::error::Error;
use crate::term::Term;
use crate::util::{is_struct_key, is_struct_tag_key, name_of, term_to_str};

verus! {

/// The part of `s` that starts at position `from`; empty when `from` is past
/// the end.
pub open spec fn tail_from<T>(s: Seq<T>, from: int) -> Seq<T> {
    if 0 <= from <= s.len() {
        s.subrange(from, s.len() as int)
    } else {
        Seq::empty()
    }
}

/// What an optional borrowed term holds.
pub open spec fn held(t: Option<&Term>) -> Option<Term> {
    match t {
        Some(x) => Some(*x),
        None => None,
    }
}

/// A cursor over an ordered sequence of terms. It hands out one term per
/// request, in order, and keeps reporting the end once it has reached it.
pub struct SequenceDeserializer<'a> {
    items: &'a Vec<Term>,
    pos: usize,
}

impl<'a> View for SequenceDeserializer<'a> {
    type V = Seq<Term>;

    /// The terms that are still to be handed out, in order.
    closed spec fn view(&self) -> Seq<Term> {
        tail_from(self.items@, self.pos as int)
    }
}

impl<'a> SequenceDeserializer<'a> {
    /// A cursor over all of `items`.
    pub fn new(items: &'a Vec<Term>) -> (r: Self)
        ensures
            r@ == items@,
    {
        let r = SequenceDeserializer { items, pos: 0 };
        assert(r@ =~= items@);
        r
    }

    /// A cursor over `items` without its first `skip` terms.
    pub fn starting_at(items: &'a Vec<Term>, skip: usize) -> (r: Self)
        ensures
            r@ == tail_from(items@, skip as int),
    {
        SequenceDeserializer { items, pos: skip }
    }

    /// Hands out the next term, or nothing at the end. At the end the cursor
    /// stays as it is, so every later request reports the end too.
    pub fn next_element(&mut self) -> (r: Option<&'a Term>)
        ensures
            (held(r), final(self)@) == sequence_step(old(self)@),
    {
        if self.pos < self.items.len() {
            let t = &self.items[self.pos];
            self.pos = self.pos + 1;
            assert(self@ =~= old(self)@.drop_first());
            Some(t)
        } else {
            None
        }
    }

    /// Walks to the end and returns the terms handed out on the way, in the
    /// order in which they came.
    pub fn drain(&mut self) -> (r: Vec<&'a Term>)
        ensures
            final(self)@.len() == 0,
            r@.len() == old(self)@.len(),
            forall|i: int| 0 <= i < r@.len() ==> *r@[i] == old(self)@[i],
    {
        let mut out: Vec<&'a Term> = Vec::new();
        let ghost start = self@;
        loop
            invariant
                out@.len() + self@.len() == start.len(),
                forall|i: int| 0 <= i < out@.len() ==> *out@[i] == start[i],
                forall|i: int| 0 <= i < self@.len() ==> self@[i] == start[out@.len() + i],
            ensures
                self@.len() == 0,
            decreases self@.len(),
        {
            let ghost before = self@;
            match self.next_element() {
                Some(t) => {
                    out.push(t);
                    assert forall|i: int| 0 <= i < self@.len() implies self@[i] == start[out@.len()
                        + i] by {
                        assert(self@[i] == before[i + 1]);
                    }
                },
                None => {
                    break ;
                },
            }
        }
        out
    }

    /// How many terms are still to be handed out.
    pub fn size_hint(&self) -> (r: usize)
        ensures
            r == self@.len(),
    {
        if self.pos < self.items.len() {
            self.items.len() - self.pos
        } else {
            0
        }
    }
}

/// What a map cursor holds: the tag of the container where it is a named
/// struct or variant, the pairs not yet visited, and the value of the pair
/// whose key was handed out last and whose value has not been fetched yet.
pub struct MapModel {
    pub tag: Option<Term>,
    pub remaining: Seq<(Term, Term)>,
    pub pending: Option<Term>,
}

/// A key as a map cursor presents it: a resolved name inside a tagged
/// container, the raw key term inside an open map.
#[derive(Debug)]
pub enum MapKey<'a> {
    Name(String),
    Raw(&'a Term),
}

/// The pairs of `remaining` from the one that is presented next: a struct-tag
/// pair at the very front is passed over, and only there.
pub open spec fn skip_tag_at_head(remaining: Seq<(Term, Term)>) -> Seq<(Term, Term)> {
    if remaining.len() > 0 && is_struct_key(remaining[0].0) {
        remaining.drop_first()
    } else {
        remaining
    }
}

/// The state of a map cursor after a key was requested in state `m`.
pub open spec fn map_after_key(m: MapModel) -> MapModel {
    let s = skip_tag_at_head(m.remaining);
    if s.len() == 0 {
        MapModel { tag: m.tag, remaining: s, pending: None }
    } else {
        MapModel { tag: m.tag, remaining: s.drop_first(), pending: Some(s[0].1) }
    }
}

/// The state of a map cursor after a value was requested in state `m`.
pub open spec fn map_after_value(m: MapModel) -> MapModel {
    MapModel { tag: m.tag, remaining: m.remaining, pending: None }
}

/// Whether `r` is the answer to a request for a key in state `m`: nothing at
/// the end; inside a tagged container the resolved name of the presented key,
/// or the error of resolving it; inside an open map the key itself.
pub open spec fn key_outcome(r: Result<Option<MapKey>, Error>, m: MapModel) -> bool {
    let s = skip_tag_at_head(m.remaining);
    if s.len() == 0 {
        r matches Ok(None)
    } else if m.tag is Some {
        match name_of(s[0].0) {
            Ok(n) => r matches Ok(Some(MapKey::Name(k))) && k@ == n,
            Err(e) => r matches Err(x) && x == e,
        }
    } else {
        r matches Ok(Some(MapKey::Raw(k))) && *k == s[0].0
    }
}

/// A cursor over the pairs of a map.
pub struct MapDeserializer<'a> {
    struct_name_term: Option<&'a Term>,
    pairs: &'a Vec<(Term, Term)>,
    pos: usize,
    current_value: Option<&'a Term>,
}

impl<'a> View for MapDeserializer<'a> {
    type V = MapModel;

    closed spec fn view(&self) -> MapModel {
        MapModel {
            tag: held(self.struct_name_term),
            remaining: tail_from(self.pairs@, self.pos as int),
            pending: held(self.current_value),
        }
    }
}

impl<'a> MapDeserializer<'a> {
    /// A cursor over all of `pairs`, tagged with `struct_name_term` where the
    /// container is a named struct or variant.
    pub fn new(pairs: &'a Vec<(Term, Term)>, struct_name_term: Option<&'a Term>) -> (r: Self)
        ensures
            r@ == (MapModel { tag: held(struct_name_term), remaining: pairs@, pending: None }),
    {
        let r = MapDeserializer { struct_name_term, pairs, pos: 0, current_value: None };
        assert(r@.remaining =~= pairs@);
        r
    }

    /// Whether a key was handed out whose value has not been fetched.
    pub fn has_pending_value(&self) -> (r: bool)
        ensures
            r == (self@.pending is Some),
    {
        self.current_value.is_some()
    }

    /// Hands out the next key, or nothing at the end, and keeps the value of
    /// its pair for the request that follows. A struct-tag pair at the front
    /// is passed over. The value is kept even where the key fails to resolve.
    pub fn next_key(&mut self) -> (r: Result<Option<MapKey<'a>>, Error>)
        requires
            old(self)@.pending is None,
        ensures
            final(self)@ == map_after_key(old(self)@),
            key_outcome(r, old(self)@),
    {
        let ghost before = self@;
        if self.pos >= self.pairs.len() {
            assert(self@.remaining =~= map_after_key(before).remaining);
            return Ok(None);
        }
        if is_struct_tag_key(&self.pairs[self.pos].0) {
            self.pos = self.pos + 1;
            assert(self@.remaining =~= skip_tag_at_head(before.remaining));
            if self.pos >= self.pairs.len() {
                return Ok(None);
            }
        }
        let ghost s = skip_tag_at_head(before.remaining);
        assert(self@.remaining =~= s);
        let pair = &self.pairs[self.pos];
        assert(*pair == s[0]);
        self.pos = self.pos + 1;
        self.current_value = Some(&pair.1);
        assert(self@.remaining =~= s.drop_first());
        if self.struct_name_term.is_some() {
            match term_to_str(&pair.0) {
                Ok(name) => Ok(Some(MapKey::Name(name))),
                Err(e) => Err(e),
            }
        } else {
            Ok(Some(MapKey::Raw(&pair.0)))
        }
    }

    /// Hands out the value that belongs to the key handed out last. Without
    /// such a key it fails with `ExpectedStructValue` and changes nothing.
    pub fn next_value(&mut self) -> (r: Result<&'a Term, Error>)
        ensures
            match old(self)@.pending {
                Some(v) => r matches Ok(t) && *t == v && final(self)@ == map_after_value(
                    old(self)@,
                ),
                None => r matches Err(e) && e == Error::ExpectedStructValue && final(self)@ == old(
                    self,
                )@,
            },
    {
        match self.current_value {
            None => Err(Error::ExpectedStructValue),
            Some(value) => {
                self.current_value = None;
                Ok(value)
            },
        }
    }
}

/// What a sequence cursor over `s` hands out on one request, and what it is
/// over afterwards.
pub open spec fn sequence_step(s: Seq<Term>) -> (Option<Term>, Seq<Term>) {
    if s.len() == 0 {
        (None, s)
    } else {
        (Some(s[0]), s.drop_first())
    }
}

/// What a sequence cursor over `s` hands out until it reports the end.
pub open spec fn handed_out(s: Seq<Term>) -> Seq<Term>
    decreases s.len(),
{
    match sequence_step(s).0 {
        Some(t) => seq![t] + handed_out(sequence_step(s).1),
        None => Seq::empty(),
    }
}

/// A sequence cursor hands out every element once, in order, and nothing
/// else: what it hands out until the end is the sequence it was made over.
pub proof fn lemma_sequence_order_preserved(s: Seq<Term>)
    ensures
        handed_out(s) == s,
    decreases s.len(),
{
    if s.len() > 0 {
        lemma_sequence_order_preserved(s.drop_first());
        assert(seq![s[0]] + s.drop_first() =~= s);
    } else {
        assert(handed_out(s) =~= s);
    }
}

/// Once a sequence cursor has reported the end, it reports the end on every
/// later request.
pub proof fn lemma_sequence_end_is_stable(s: Seq<Term>)
    requires
        sequence_step(s).0 is None,
    ensures
        sequence_step(sequence_step(s).1).0 is None,
        sequence_step(s).1 == s,
{
}

/// A map cursor at the end answers a request for a key with "no more keys",
/// never with an error, and is at the end afterwards too.
pub proof fn lemma_map_end_is_stable(m: MapModel, r: Result<Option<MapKey>, Error>)
    requires
        m.remaining.len() == 0,
        key_outcome(r, m),
    ensures
        r matches Ok(None),
        map_after_key(m).remaining.len() == 0,
        map_after_key(m).pending is None,
{
}

/// A value can be fetched once per key: after a value was fetched, no value
/// is pending, so a second fetch without a key in between finds none.
pub proof fn lemma_map_value_once(m: MapModel)
    ensures
        map_after_value(m).pending is None,
        map_after_value(map_after_value(m)) == map_after_value(m),
{
}

/// Passing over the struct tag is a single step, not a scan: where the pair
/// at the front is a tag pair, the pair behind it is presented whatever its
/// key is, a second tag pair too.
pub proof fn lemma_tag_skip_is_single(m: MapModel)
    requires
        m.remaining.len() >= 2,
        is_struct_key(m.remaining[0].0),
    ensures
        map_after_key(m).pending == Some(m.remaining[1].1),
        map_after_key(m).remaining == m.remaining.subrange(2, m.remaining.len() as int),
{
    let s = skip_tag_at_head(m.remaining);
    assert(s[0] == m.remaining[1]);
    assert(s.drop_first() =~= m.remaining.subrange(2, m.remaining.len() as int));
}

} // verus!
